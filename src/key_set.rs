use vstd::prelude::*;

verus! {

/// How long a fetched key set is served before it is fetched again: twelve hours.
pub const KEY_SET_TTL_MILLIS: i64 = 12 * 60 * 60 * 1000;

/// What to do for a request that needs the key set.
#[derive(Debug, Clone, Copy, PartialEq, Eq, Structural)]
pub enum KeySetDecision {
    Fetch,
    UseCached,
}

/// A fetch is due when none has succeeded yet, or the last success is more than
/// twelve hours old.
pub open spec fn must_fetch(fetched_at: Option<i64>, now_millis: i64) -> bool {
    match fetched_at {
        None => true,
        Some(t) => now_millis - t > KEY_SET_TTL_MILLIS,
    }
}

/// The cached key-set document together with the instant it was fetched; the
/// two are installed together.
pub struct KeySetCache {
    installed: Option<(String, i64)>,
}

impl KeySetCache {
    pub closed spec fn fetched_at(&self) -> Option<i64> {
        match self.installed {
            Some((_, t)) => Some(t),
            None => None,
        }
    }

    /// The cached document, empty while none was fetched.
    pub closed spec fn document(&self) -> Seq<char> {
        match self.installed {
            Some((d, _)) => d@,
            None => Seq::empty(),
        }
    }

    pub fn new() -> (r: KeySetCache)
        ensures
            r.fetched_at() is None,
            r.document() == Seq::<char>::empty(),
    {
        KeySetCache { installed: None }
    }

    pub fn decide(&self, now_millis: i64) -> (r: KeySetDecision)
        ensures
            (r == KeySetDecision::Fetch) == must_fetch(self.fetched_at(), now_millis),
    {
        match &self.installed {
            None => KeySetDecision::Fetch,
            Some((_, t)) => {
                if (now_millis as i128) - (*t as i128) > KEY_SET_TTL_MILLIS as i128 {
                    KeySetDecision::Fetch
                } else {
                    KeySetDecision::UseCached
                }
            },
        }
    }

    pub fn cached_document(&self) -> (r: String)
        ensures
            r@ == self.document(),
    {
        match &self.installed {
            Some((d, _)) => d.clone(),
            None => String::new(),
        }
    }

    /// Takes the outcome of a fetch: a response with status 200 and a body
    /// replaces the document and its instant; any other outcome keeps the cached
    /// document, stale or empty. Returns the document to verify with.
    pub fn record_fetch(&mut self, status: Option<u16>, body: Option<String>, now_millis: i64) -> (r: String)
        ensures
            (status == Some(200u16) && body is Some) ==> {
                &&& final(self).fetched_at() == Some(now_millis)
                &&& final(self).document() == body->0@
                &&& r@ == body->0@
            },
            !(status == Some(200u16) && body is Some) ==> {
                &&& final(self).fetched_at() == old(self).fetched_at()
                &&& final(self).document() == old(self).document()
                &&& r@ == old(self).document()
            },
    {
        if status == Some(200u16) {
            if let Some(text) = body {
                let document = text.clone();
                self.installed = Some((text, now_millis));
                return document;
            }
        }
        self.cached_document()
    }
}

} // verus!
