use vstd::prelude::*;
use crate::call::{mpris_object_path, mpris_object_path_string};
use crate::names::{
    is_valid_member_name, is_valid_object_path, lemma_valid_member_has_no_nul,
    lemma_valid_path_has_no_nul, member_new, path_new,
};

verus! {

/// Which MPRIS signal to listen for.
#[derive(Clone, Copy, Debug, PartialEq, Eq)]
pub enum EventType {
    /// Emitted whenever a player property changes.
    PropertiesChanged,
    /// Emitted whenever the playback position jumps outside normal linear
    /// progression.
    Seeked,
}

/// The protocol-fixed signal member name selected by `event_type`.
pub open spec fn event_member(event_type: EventType) -> Seq<char> {
    match event_type {
        EventType::PropertiesChanged => "PropertiesChanged"@,
        EventType::Seeked => "Seeked"@,
    }
}

impl EventType {
    /// The protocol-fixed signal member name this tag selects.
    pub fn member_name(&self) -> (r: &'static str)
        ensures
            r@ == event_member(*self),
    {
        match self {
            EventType::PropertiesChanged => "PropertiesChanged",
            EventType::Seeked => "Seeked",
        }
    }
}

/// A bus-level signal filter: signals whose member name equals `member` and
/// whose originating object path equals `path` are matched.
#[derive(Clone, Debug, PartialEq, Eq)]
pub struct MatchFilter {
    pub member: String,
    pub path: String,
}

/// Why a filter could not be turned into bus-level parts.
#[derive(Clone, Copy, Debug, PartialEq, Eq, Structural)]
pub enum FilterError {
    /// The member string is not a syntactically valid D-Bus member name.
    InvalidMember,
    /// The path string is not a syntactically valid D-Bus object path.
    InvalidPath,
}

impl MatchFilter {
    /// Builds the filter for `event_type`: its member is the protocol-fixed
    /// signal name, its path the fixed MPRIS object path.
    pub fn for_event(event_type: &EventType) -> (f: MatchFilter)
        ensures
            f.member@ == event_member(*event_type),
            f.path@ == mpris_object_path(),
    {
        MatchFilter { member: String::from_str(event_type.member_name()), path: mpris_object_path_string() }
    }

    /// Turns this filter into the validated bus-level strings a match rule is
    /// made of. Succeeds exactly when both member and path are syntactically
    /// valid; for the filters [`MatchFilter::for_event`] builds, failure is
    /// impossible (see [`lemma_event_filter_valid`]).
    pub fn checked_parts(&self) -> (r: Result<
        (dbus::strings::Member<'static>, dbus::strings::Path<'static>),
        FilterError,
    >)
        ensures
            r is Ok <==> is_valid_member_name(self.member@) && is_valid_object_path(self.path@),
            r matches Err(e) ==> (e == FilterError::InvalidMember <==> !is_valid_member_name(
                self.member@,
            )),
    {
        if !crate::names::check_member_name(self.member.as_str()) {
            return Err(FilterError::InvalidMember);
        }
        if !crate::names::check_object_path(self.path.as_str()) {
            return Err(FilterError::InvalidPath);
        }
        proof {
            lemma_valid_member_has_no_nul(self.member@);
            lemma_valid_path_has_no_nul(self.path@);
        }
        let member = match member_new(self.member.as_str()) {
            Ok(m) => m,
            Err(_) => {
                return Err(FilterError::InvalidMember);
            },
        };
        let path = match path_new(self.path.as_str()) {
            Ok(p) => p,
            Err(_) => {
                return Err(FilterError::InvalidPath);
            },
        };
        Ok((member, path))
    }
}

/// Law: the filter built for either event type is always syntactically valid,
/// so registering it can only fail in the connection layer, never in filter
/// construction.
pub proof fn lemma_event_filter_valid(event_type: EventType)
    ensures
        is_valid_member_name(event_member(event_type)),
        is_valid_object_path(mpris_object_path()),
{
    reveal_strlit("PropertiesChanged");
    reveal_strlit("Seeked");
    reveal_strlit("/org/mpris/MediaPlayer2");
}

/// Registers interest in MPRIS signals on behalf of its caller and keeps one
/// registration token per active subscription, so that everything this
/// manager registered can be torn down collectively.
///
/// The bus work itself is the embedding application's: it registers the
/// filter from [`MatchFilter::for_event`] on its connection, records the
/// token the connection handed back via [`EventManager::add_callback`], and
/// on [`EventManager::clear_callbacks`] issues one removal per returned
/// token.
pub struct EventManager {
    tokens: Vec<usize>,
}

/// The tokens recorded one at a time, oldest first: folding a push over `s`
/// starting from no recorded tokens.
pub open spec fn recorded_after(s: Seq<usize>) -> Seq<usize>
    decreases s.len(),
{
    if s.len() == 0 {
        Seq::empty()
    } else {
        recorded_after(s.drop_last()).push(s.last())
    }
}

impl EventManager {
    /// The registration tokens this manager currently holds, in the order
    /// they were recorded. This collection is the sole authority for what
    /// the manager has registered.
    pub closed spec fn registered(&self) -> Seq<usize> {
        self.tokens@
    }

    /// Creates a new event manager with nothing registered.
    pub fn new() -> (m: EventManager)
        ensures
            m.registered() == Seq::<usize>::empty(),
    {
        EventManager { tokens: Vec::new() }
    }

    /// Records the registration token of one newly added callback: exactly
    /// one entry is appended, and nothing else changes.
    pub fn add_callback(&mut self, token: usize)
        ensures
            final(self).registered() == old(self).registered().push(token),
    {
        self.tokens.push(token);
    }

    /// Clears the bookkeeping and hands back every recorded token, oldest
    /// first, so the caller can issue exactly one removal per token. The
    /// collection is emptied up front: this is the documented policy, and a
    /// caller that aborts on the first failed removal forgets the rest.
    pub fn clear_callbacks(&mut self) -> (removals: Vec<usize>)
        ensures
            removals@ == old(self).registered(),
            final(self).registered() == Seq::<usize>::empty(),
    {
        let mut out: Vec<usize> = Vec::new();
        let mut i: usize = 0;
        while i < self.tokens.len()
            invariant
                0 <= i <= self.tokens@.len(),
                out@ == self.tokens@.subrange(0, i as int),
            decreases self.tokens@.len() - i,
        {
            out.push(self.tokens[i]);
            i += 1;
        }
        proof {
            assert(out@ =~= self.tokens@);
        }
        self.tokens = Vec::new();
        out
    }

    /// How many registrations this manager currently holds.
    pub fn callback_count(&self) -> (n: usize)
        ensures
            n == self.registered().len(),
    {
        self.tokens.len()
    }
}

/// Law: recording the tokens of `s` one at a time into an empty manager
/// leaves exactly the tokens of `s` recorded — N registrations, N tokens —
/// and clearing then hands back exactly those N tokens for removal.
pub proof fn lemma_registrations_all_recorded(s: Seq<usize>)
    ensures
        recorded_after(s) == s,
        recorded_after(s).len() == s.len(),
    decreases s.len(),
{
    if s.len() == 0 {
        assert(recorded_after(s) =~= s);
    } else {
        lemma_registrations_all_recorded(s.drop_last());
        assert(recorded_after(s) =~= s);
    }
}

} // verus!
