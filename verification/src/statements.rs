//! The statement registry: prepared statements by token, each bound to the
//! source that prepared it.

use vstd::hash_map::StringHashMap;
use vstd::prelude::*;

verus! {

/// What the registry keeps for one token.
pub struct StatementEntry<S> {
    /// The prepared statement, as the backend handed it out.
    pub statement: S,
    /// The identity of the source that prepared it.
    pub owner: String,
}

/// Maps a token to a prepared statement and the source that owns it.
///
/// `S` is the statement handle of the backend driver. A statement comes into
/// being over a live connection, which the registry never holds, so it
/// stores the handle as it gets it and hands it out by reference.
#[verifier::reject_recursive_types(S)]
pub struct StatementRegistry<S> {
    entries: StringHashMap<StatementEntry<S>>,
    tokens: Vec<String>,
}

/// The content of a registry: for each live token, the statement and the
/// identity of its owner.
pub type Statements<S> = Map<Seq<char>, (S, Seq<char>)>;

/// `statements` without those that `owner` owns.
pub open spec fn without_owner<S>(statements: Statements<S>, owner: Seq<char>) -> Statements<S> {
    Map::new(
        |token: Seq<char>| statements.contains_key(token) && statements[token].1 != owner,
        |token: Seq<char>| statements[token],
    )
}

spec fn listed(tokens: Seq<String>, token: Seq<char>) -> bool {
    exists|i: int| 0 <= i < tokens.len() && (#[trigger] tokens[i])@ == token
}

spec fn distinct(tokens: Seq<String>) -> bool {
    forall|i: int, j: int|
        0 <= i < j < tokens.len() ==> (#[trigger] tokens[i])@ != (#[trigger] tokens[j])@
}

spec fn content<S>(entries: Map<Seq<char>, StatementEntry<S>>) -> Statements<S> {
    Map::new(
        |token: Seq<char>| entries.contains_key(token),
        |token: Seq<char>| (entries[token].statement, entries[token].owner@),
    )
}

impl<S> View for StatementRegistry<S> {
    type V = Statements<S>;

    closed spec fn view(&self) -> Statements<S> {
        content(self.entries@)
    }
}

impl<S> StatementRegistry<S> {
    /// The token list names each stored token once, and nothing else.
    #[verifier::type_invariant]
    spec fn consistent(self) -> bool {
        &&& distinct(self.tokens@)
        &&& forall|i: int|
            0 <= i < self.tokens.len() ==> self.entries@.contains_key((#[trigger] self.tokens[i])@)
        &&& forall|token: Seq<char>| #[trigger]
            self.entries@.contains_key(token) ==> listed(self.tokens@, token)
    }

    /// A registry without statements.
    pub fn new() -> (r: Self)
        ensures
            r@ == Map::<Seq<char>, (S, Seq<char>)>::empty(),
    {
        let r = StatementRegistry { entries: StringHashMap::new(), tokens: Vec::new() };
        r
    }

    /// The number of live tokens.
    pub fn len(&self) -> (r: usize)
        ensures
            r == self@.len(),
    {
        broadcast use vstd::hash_map::group_hash_map_axioms;

        assert(self@.dom() =~= self.entries@.dom());
        self.entries.len()
    }

    /// Whether `token` names a statement.
    pub fn contains(&self, token: &str) -> (r: bool)
        ensures
            r == self@.contains_key(token@),
    {
        self.entries.contains_key(token)
    }

    /// The statement that `token` names and the identity of its owner.
    pub fn get(&self, token: &str) -> (r: Option<(&S, &String)>)
        ensures
            match r {
                Some((statement, owner)) => self@.contains_key(token@) && self@[token@] == (
                    *statement,
                    owner@,
                ),
                None => !self@.contains_key(token@),
            },
    {
        match self.entries.get(token) {
            Some(entry) => Some((&entry.statement, &entry.owner)),
            None => None,
        }
    }

    /// Stores `statement` under `token` for `owner`, unless the token names a
    /// statement already: then nothing changes and the statement is handed
    /// back. A stored statement is never replaced.
    pub fn insert(&mut self, token: String, statement: S, owner: String) -> (r: Result<(), S>)
        ensures
            match r {
                Ok(_) => !old(self)@.contains_key(token@) && final(self)@ == old(self)@.insert(
                    token@,
                    (statement, owner@),
                ),
                Err(back) => old(self)@.contains_key(token@) && final(self)@ == old(self)@ && back
                    == statement,
            },
    {
        if self.entries.contains_key(token.as_str()) {
            return Err(statement);
        }
        proof {
            use_type_invariant(&*self);
        }
        let mut taken = StatementRegistry { entries: StringHashMap::new(), tokens: Vec::new() };
        std::mem::swap(self, &mut taken);
        let StatementRegistry { mut entries, mut tokens } = taken;
        let ghost before = entries@;
        let ghost listed_before = tokens@;
        tokens.push(token.clone());
        entries.insert(token, StatementEntry { statement, owner });
        proof {
            assert forall|t: Seq<char>| #[trigger] entries@.contains_key(t) implies listed(
                tokens@,
                t,
            ) by {
                if t == token@ {
                    assert(tokens[tokens.len() - 1]@ == t);
                } else {
                    let i = choose|i: int|
                        0 <= i < listed_before.len() && (#[trigger] listed_before[i])@ == t;
                    assert(tokens[i]@ == t);
                }
            }
        }
        *self = StatementRegistry { entries, tokens };
        Ok(())
    }

    /// Removes every statement that `source_id` owns, and no other.
    pub fn remove_all_owned_by(&mut self, source_id: &str)
        ensures
            final(self)@ == without_owner(old(self)@, source_id@),
    {
        proof {
            use_type_invariant(&*self);
        }
        let mut taken = StatementRegistry { entries: StringHashMap::new(), tokens: Vec::new() };
        std::mem::swap(self, &mut taken);
        let StatementRegistry { mut entries, tokens } = taken;
        let ghost before = entries@;
        let owner = String::from_str(source_id);
        let mut kept: Vec<String> = Vec::new();
        let mut i: usize = 0;
        while i < tokens.len()
            invariant
                0 <= i <= tokens.len(),
                owner@ == source_id@,
                distinct(tokens@),
                distinct(kept@),
                forall|j: int| 0 <= j < tokens.len() ==> before.contains_key((#[trigger] tokens[j])@),
                forall|t: Seq<char>| #[trigger] before.contains_key(t) ==> listed(tokens@, t),
                forall|j: int|
                    i <= j < tokens.len() ==> entries@.contains_key((#[trigger] tokens[j])@),
                forall|t: Seq<char>| #[trigger]
                    entries@.contains_key(t) ==> before.contains_key(t) && entries@[t] == before[t],
                forall|j: int|
                    0 <= j < i ==> (entries@.contains_key((#[trigger] tokens[j])@)
                        <==> before[tokens[j]@].owner@ != source_id@),
                forall|k: int|
                    0 <= k < kept.len() ==> entries@.contains_key((#[trigger] kept[k])@) && exists|
                        j: int,
                    |
                        0 <= j < i && (#[trigger] tokens[j])@ == kept[k]@,
                forall|j: int|
                    0 <= j < i && entries@.contains_key((#[trigger] tokens[j])@) ==> listed(
                        kept@,
                        tokens[j]@,
                    ),
            decreases tokens.len() - i,
        {
            let token = &tokens[i];
            let owned = match entries.get(token.as_str()) {
                Some(entry) => entry.owner == owner,
                None => false,
            };
            let ghost kept_before = kept@;
            if owned {
                entries.remove(token.as_str());
            } else {
                kept.push(token.clone());
            }
            proof {
                assert forall|j: int|
                    0 <= j < i + 1 && entries@.contains_key((#[trigger] tokens[j])@) implies listed(
                    kept@,
                    tokens[j]@,
                ) by {
                    if j < i {
                        let k = choose|k: int|
                            0 <= k < kept_before.len() && (#[trigger] kept_before[k])@
                                == tokens[j]@;
                        assert(kept[k]@ == tokens[j]@);
                    } else {
                        assert(kept[kept.len() - 1]@ == tokens[j]@);
                    }
                }
            }
            i += 1;
        }
        *self = StatementRegistry { entries, tokens: kept };
    }

    /// Removes every statement.
    pub fn clear(&mut self)
        ensures
            final(self)@ == Map::<Seq<char>, (S, Seq<char>)>::empty(),
    {
        *self = StatementRegistry { entries: StringHashMap::new(), tokens: Vec::new() };
    }
}

} // verus!
