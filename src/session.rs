//! The session store: login configuration and the set of subscribed symbols.
use vstd::prelude::*;

verus! {

/// What a successful login leaves behind: the REST endpoint to talk to and
/// the access token to present there.
#[derive(Clone, Debug)]
pub struct SessionConfig {
    pub base_url: String,
    pub access_token: String,
}

/// Session state of one host connection.
pub struct Session {
    subscriptions: Vec<String>,
    config: Option<SessionConfig>,
}

impl Session {
    /// The subscribed symbols, in the order they were first subscribed.
    pub closed spec fn subscriptions(&self) -> Seq<Seq<char>> {
        self.subscriptions@.map_values(|s: String| s@)
    }

    pub closed spec fn config(&self) -> Option<SessionConfig> {
        self.config
    }

    /// No symbol is subscribed twice.
    pub open spec fn wf(&self) -> bool {
        self.subscriptions().no_duplicates()
    }

    /// A session before login, with nothing subscribed.
    pub fn new() -> (r: Session)
        ensures
            r.wf(),
            r.subscriptions() == Seq::<Seq<char>>::empty(),
            r.config() is None,
    {
        let r = Session { subscriptions: Vec::new(), config: None };
        assert(r.subscriptions() =~= Seq::<Seq<char>>::empty());
        r
    }

    /// Records the configuration of a successful login.
    pub fn set_session_config(&mut self, config: SessionConfig)
        ensures
            final(self).config() == Some(config),
            final(self).subscriptions() == old(self).subscriptions(),
    {
        self.config = Some(config);
    }

    /// The configuration of the last successful login, if any.
    pub fn session_config(&self) -> (r: &Option<SessionConfig>)
        ensures
            *r == self.config(),
    {
        &self.config
    }

    /// Whether `symbol` is subscribed.
    pub fn is_subscribed(&self, symbol: &str) -> (r: bool)
        ensures
            r == self.subscriptions().contains(symbol@),
    {
        let wanted = symbol.to_owned();
        let mut i: usize = 0;
        while i < self.subscriptions.len()
            invariant
                i <= self.subscriptions@.len(),
                wanted@ == symbol@,
                forall|j: int| 0 <= j < i ==> self.subscriptions()[j] != symbol@,
            decreases self.subscriptions@.len() - i,
        {
            if self.subscriptions[i] == wanted {
                assert(self.subscriptions()[i as int] == symbol@);
                return true;
            }
            i += 1;
        }
        false
    }

    /// Adds `symbol` to the subscriptions unless it is there already; says
    /// whether it was added.
    pub fn subscribe(&mut self, symbol: &str) -> (r: bool)
        requires
            old(self).wf(),
        ensures
            final(self).wf(),
            r == !old(self).subscriptions().contains(symbol@),
            final(self).subscriptions() == if r {
                old(self).subscriptions().push(symbol@)
            } else {
                old(self).subscriptions()
            },
            final(self).config() == old(self).config(),
    {
        if self.is_subscribed(symbol) {
            false
        } else {
            let ghost before = self.subscriptions();
            self.subscriptions.push(symbol.to_owned());
            assert(self.subscriptions() =~= before.push(symbol@));
            true
        }
    }
}

} // verus!
