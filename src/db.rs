//! The stored form of a conversation: its id and its turns in order.

use vstd::prelude::*;

verus! {

/// A turn as a value: the human participant (`None` for the assistant) and the text.
pub type Turn = (Option<Seq<char>>, Seq<char>);

/// One turn of a conversation; `user` is `None` for the assistant.
pub struct Event {
    pub user: Option<String>,
    pub msg: String,
}

impl View for Event {
    type V = Turn;

    open spec fn view(&self) -> Turn {
        (
            match self.user {
                Some(u) => Some(u@),
                None => None,
            },
            self.msg@,
        )
    }
}

impl Event {
    /// A turn spoken by the human participant `user`.
    pub fn user(user: &str, msg: &str) -> (r: Event)
        ensures
            r@ == (Some(user@), msg@),
    {
        Event { user: Some(user.to_owned()), msg: msg.to_owned() }
    }

    /// A turn spoken by the assistant.
    pub fn ai(msg: &str) -> (r: Event)
        ensures
            r@ == (None::<Seq<char>>, msg@),
    {
        Event { user: None, msg: msg.to_owned() }
    }
}

/// A conversation: its id and its turns, oldest first.
pub struct Channel {
    pub id: String,
    pub events: Vec<Event>,
}

impl View for Channel {
    type V = Seq<Turn>;

    open spec fn view(&self) -> Seq<Turn> {
        self.events@.map_values(|e: Event| e@)
    }
}

impl Channel {
    /// A conversation with the given id and no turns yet.
    pub fn empty(id: &str) -> (r: Channel)
        ensures
            r.id@ == id@,
            r@ == Seq::<Turn>::empty(),
    {
        let r = Channel { id: id.to_owned(), events: Vec::new() };
        assert(r@ =~= Seq::<Turn>::empty());
        r
    }

    /// Adds a turn at the end; no turn is moved or removed.
    pub fn push(&mut self, event: Event)
        ensures
            final(self).id == old(self).id,
            final(self)@ == old(self)@.push(event@),
    {
        let ghost e = event@;
        self.events.push(event);
        assert(self@ =~= old(self)@.push(e));
    }
}

} // verus!
