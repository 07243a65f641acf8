//! Per-token conversation transcripts.
//!
//! The manager maps a session token to the single rolling transcript string
//! of its conversation. The mapping is held as an association list with
//! unique keys, abstracted in contracts as a `Map<Seq<char>, Seq<char>>`
//! from token to transcript.

use vstd::prelude::*;
use vstd::string::*;

verus! {

/// The seed transcript every conversation starts from: a fixed preamble
/// plus one example exchange, ending with a marker for the human's turn.
pub open spec fn initial_context() -> Seq<char> {
    "The following is a conversation with an AI assistant. The assistant is helpful, creative, clever, and very friendly.\n\nHuman: Hello, who are you?\nAI: I am an AI created by OpenAI. How can I help you today?\nHuman: "@
}

/// The seed transcript as an owned string.
pub fn initial_context_string() -> (s: String)
    ensures
        s@ == initial_context(),
{
    String::from_str(
        "The following is a conversation with an AI assistant. The assistant is helpful, creative, clever, and very friendly.\n\nHuman: Hello, who are you?\nAI: I am an AI created by OpenAI. How can I help you today?\nHuman: ",
    )
}

/// The transcript of one conversation.
pub struct Context {
    pub conversation: String,
}

impl Context {
    pub fn new(conversation: String) -> (r: Self)
        ensures
            r.conversation == conversation,
    {
        Self { conversation }
    }
}

/// Failure of a transcript operation that needs an existing context.
#[derive(Debug, PartialEq, Eq)]
pub enum ContextError {
    /// The token has no context: it was never created, or was deleted.
    NotFound,
}

/// The transcript each token in the list is mapped to; a later entry for
/// the same token would shadow an earlier one, but the manager keeps its
/// keys unique.
pub open spec fn assoc_map(s: Seq<(String, Context)>) -> Map<Seq<char>, Seq<char>>
    decreases s.len(),
{
    if s.len() == 0 {
        Map::empty()
    } else {
        assoc_map(s.drop_last()).insert(s.last().0@, s.last().1.conversation@)
    }
}

/// No token appears twice in the list.
pub open spec fn unique_keys(s: Seq<(String, Context)>) -> bool {
    forall|i: int, j: int|
        #![trigger s[i], s[j]]
        0 <= i < j < s.len() ==> s[i].0@ != s[j].0@
}

proof fn lemma_assoc_absent(s: Seq<(String, Context)>, k: Seq<char>)
    requires
        forall|i: int| 0 <= i < s.len() ==> #[trigger] s[i].0@ != k,
    ensures
        !assoc_map(s).contains_key(k),
    decreases s.len(),
{
    if s.len() > 0 {
        assert forall|i: int| 0 <= i < s.drop_last().len() implies #[trigger] s.drop_last()[i].0@
            != k by {
            assert(s.drop_last()[i] == s[i]);
        }
        lemma_assoc_absent(s.drop_last(), k);
        assert(s.last() == s[s.len() - 1]);
    }
}

proof fn lemma_assoc_at(s: Seq<(String, Context)>, i: int)
    requires
        unique_keys(s),
        0 <= i < s.len(),
    ensures
        assoc_map(s).contains_key(s[i].0@),
        assoc_map(s)[s[i].0@] == s[i].1.conversation@,
    decreases s.len(),
{
    if i == s.len() - 1 {
        assert(s.last() == s[i]);
    } else {
        assert forall|a: int, b: int|
            #![trigger s.drop_last()[a], s.drop_last()[b]]
            0 <= a < b < s.drop_last().len() implies s.drop_last()[a].0@
            != s.drop_last()[b].0@ by {
            assert(s.drop_last()[a] == s[a]);
            assert(s.drop_last()[b] == s[b]);
        }
        lemma_assoc_at(s.drop_last(), i);
        assert(s.drop_last()[i] == s[i]);
        assert(s.last() == s[s.len() - 1]);
        assert(s[i].0@ != s[s.len() - 1].0@);
    }
}

proof fn lemma_assoc_remove(s: Seq<(String, Context)>, i: int)
    requires
        unique_keys(s),
        0 <= i < s.len(),
    ensures
        unique_keys(s.remove(i)),
        assoc_map(s.remove(i)) == assoc_map(s).remove(s[i].0@),
    decreases s.len(),
{
    assert forall|a: int, b: int|
        #![trigger s.remove(i)[a], s.remove(i)[b]]
        0 <= a < b < s.remove(i).len() implies s.remove(i)[a].0@ != s.remove(i)[b].0@ by {
        assert(s.remove(i)[a] == (if a < i {
            s[a]
        } else {
            s[a + 1]
        }));
        assert(s.remove(i)[b] == (if b < i {
            s[b]
        } else {
            s[b + 1]
        }));
    }
    if i == s.len() - 1 {
        assert(s.remove(i) =~= s.drop_last());
        lemma_assoc_absent_of_unique(s, i);
        assert(assoc_map(s.drop_last()).insert(s.last().0@, s.last().1.conversation@).remove(
            s[i].0@,
        ) =~= assoc_map(s.drop_last()));
    } else {
        assert forall|a: int, b: int|
            #![trigger s.drop_last()[a], s.drop_last()[b]]
            0 <= a < b < s.drop_last().len() implies s.drop_last()[a].0@
            != s.drop_last()[b].0@ by {
            assert(s.drop_last()[a] == s[a]);
            assert(s.drop_last()[b] == s[b]);
        }
        lemma_assoc_remove(s.drop_last(), i);
        assert(s.drop_last()[i] == s[i]);
        assert(s.remove(i).drop_last() =~= s.drop_last().remove(i));
        assert(s.remove(i).last() == s.last());
        assert(s.last() == s[s.len() - 1]);
        assert(s[i].0@ != s[s.len() - 1].0@);
        assert(assoc_map(s.remove(i)) == assoc_map(s.drop_last().remove(i)).insert(
            s.last().0@,
            s.last().1.conversation@,
        ));
        assert(assoc_map(s).remove(s[i].0@) =~= assoc_map(s.drop_last()).remove(s[i].0@).insert(
            s.last().0@,
            s.last().1.conversation@,
        ));
    }
}

/// In a list with unique keys, the key at `i` appears nowhere else, so it
/// is absent from the list shortened by its last entry when `i` is last.
proof fn lemma_assoc_absent_of_unique(s: Seq<(String, Context)>, i: int)
    requires
        unique_keys(s),
        0 <= i < s.len(),
        i == s.len() - 1,
    ensures
        !assoc_map(s.drop_last()).contains_key(s[i].0@),
{
    assert forall|a: int| 0 <= a < s.drop_last().len() implies #[trigger] s.drop_last()[a].0@
        != s[i].0@ by {
        assert(s.drop_last()[a] == s[a]);
        assert(s[a].0@ != s[i].0@);
    }
    lemma_assoc_absent(s.drop_last(), s[i].0@);
}

/// Maps each logged-in token to its conversation transcript.
pub struct ContextManager {
    contexts: Vec<(String, Context)>,
}

impl View for ContextManager {
    type V = Map<Seq<char>, Seq<char>>;

    closed spec fn view(&self) -> Map<Seq<char>, Seq<char>> {
        assoc_map(self.contexts@)
    }
}

impl ContextManager {
    /// Every token holds at most one transcript.
    pub closed spec fn wf(&self) -> bool {
        unique_keys(self.contexts@)
    }

    pub fn new() -> (r: Self)
        ensures
            r.wf(),
            r@ == Map::<Seq<char>, Seq<char>>::empty(),
    {
        let r = ContextManager { contexts: Vec::new() };
        proof {
            assert(r@ =~= Map::<Seq<char>, Seq<char>>::empty());
        }
        r
    }

    /// The position of the token's entry, if it has one.
    fn find_index(&self, user_token: &String) -> (r: Option<usize>)
        ensures
            match r {
                Some(i) => i < self.contexts@.len() && self.contexts@[i as int].0@ == user_token@,
                None => forall|i: int|
                    0 <= i < self.contexts@.len() ==> #[trigger] self.contexts@[i].0@
                        != user_token@,
            },
    {
        let mut i: usize = 0;
        while i < self.contexts.len()
            invariant
                i <= self.contexts@.len(),
                forall|j: int| 0 <= j < i ==> #[trigger] self.contexts@[j].0@ != user_token@,
            decreases self.contexts@.len() - i,
        {
            let pair = &self.contexts[i];
            if pair.0 == *user_token {
                return Some(i);
            }
            i = i + 1;
        }
        None
    }

    /// Stores `conversation` as the token's transcript, replacing any
    /// transcript the token had before.
    pub fn replace_context(&mut self, user_token: String, conversation: String)
        requires
            old(self).wf(),
        ensures
            final(self).wf(),
            final(self)@ == old(self)@.insert(user_token@, conversation@),
    {
        let ghost s0 = self.contexts@;
        let found = self.find_index(&user_token);
        match found {
            Some(i) => {
                proof {
                    lemma_assoc_remove(s0, i as int);
                }
                let _removed = self.contexts.remove(i);
                let ghost s1 = self.contexts@;
                self.contexts.push((user_token, Context::new(conversation)));
                proof {
                    assert(self.contexts@.drop_last() =~= s1);
                    assert forall|a: int, b: int|
                        #![trigger self.contexts@[a], self.contexts@[b]]
                        0 <= a < b < self.contexts@.len() implies self.contexts@[a].0@
                        != self.contexts@[b].0@ by {
                        if b < self.contexts@.len() - 1 {
                            assert(s1[a] == self.contexts@[a]);
                            assert(s1[b] == self.contexts@[b]);
                        } else {
                            assert(s1[a] == self.contexts@[a]);
                            assert(s1[a] == (if a < i as int {
                                s0[a]
                            } else {
                                s0[a + 1]
                            }));
                            assert(s0[i as int].0@ == self.contexts@[b].0@);
                        }
                    }
                    assert(self.contexts@.last().0@ == user_token@);
                    assert(assoc_map(self.contexts@) =~= assoc_map(s0).insert(
                        user_token@,
                        conversation@,
                    ));
                }
            },
            None => {
                let ghost tok = user_token@;
                self.contexts.push((user_token, Context::new(conversation)));
                proof {
                    assert(self.contexts@.drop_last() =~= s0);
                    assert forall|a: int, b: int|
                        #![trigger self.contexts@[a], self.contexts@[b]]
                        0 <= a < b < self.contexts@.len() implies self.contexts@[a].0@
                        != self.contexts@[b].0@ by {
                        assert(self.contexts@[a] == s0[a]);
                        if b < self.contexts@.len() - 1 {
                            assert(self.contexts@[b] == s0[b]);
                        } else {
                            assert(self.contexts@[b].0@ == tok);
                            assert(s0[a].0@ != tok);
                        }
                    }
                    assert(assoc_map(self.contexts@) =~= assoc_map(s0).insert(
                        tok,
                        conversation@,
                    ));
                }
            },
        }
    }

    /// Seeds the token's transcript with the fixed initial preamble,
    /// overwriting any prior transcript for that token.
    pub fn crate_new_context(&mut self, user_token: String)
        requires
            old(self).wf(),
        ensures
            final(self).wf(),
            final(self)@ == old(self)@.insert(user_token@, initial_context()),
    {
        let conversation = initial_context_string();
        self.replace_context(user_token, conversation);
    }

    /// Appends `s` to the token's transcript. A token without a transcript
    /// is reported as an explicit error and nothing changes.
    pub fn add_to_context(&mut self, user_token: String, s: String) -> (r: Result<(), ContextError>)
        requires
            old(self).wf(),
        ensures
            final(self).wf(),
            old(self)@.contains_key(user_token@) ==> r is Ok && final(self)@ == old(self)@.insert(
                user_token@,
                old(self)@[user_token@] + s@,
            ),
            !old(self)@.contains_key(user_token@) ==> r is Err && final(self)@ == old(self)@,
    {
        let ghost s0 = self.contexts@;
        let found = self.find_index(&user_token);
        match found {
            None => {
                proof {
                    lemma_assoc_absent(s0, user_token@);
                }
                Err(ContextError::NotFound)
            },
            Some(i) => {
                proof {
                    lemma_assoc_at(s0, i as int);
                }
                let pair = &self.contexts[i];
                let mut conversation = pair.1.conversation.clone();
                conversation.append(s.as_str());
                self.replace_context(user_token, conversation);
                Ok(())
            },
        }
    }

    /// The token's transcript, or `None` for a token that has none.
    pub fn get_context(&self, user_token: String) -> (r: Option<String>)
        requires
            self.wf(),
        ensures
            r is Some <==> self@.contains_key(user_token@),
            r matches Some(c) ==> c@ == self@[user_token@],
    {
        let found = self.find_index(&user_token);
        match found {
            None => {
                proof {
                    lemma_assoc_absent(self.contexts@, user_token@);
                }
                None
            },
            Some(i) => {
                proof {
                    lemma_assoc_at(self.contexts@, i as int);
                }
                let pair = &self.contexts[i];
                Some(pair.1.conversation.clone())
            },
        }
    }

    /// Removes the token's transcript; doing nothing when it has none.
    pub fn delete_context(&mut self, user_token: String)
        requires
            old(self).wf(),
        ensures
            final(self).wf(),
            final(self)@ == old(self)@.remove(user_token@),
    {
        let ghost s0 = self.contexts@;
        let found = self.find_index(&user_token);
        match found {
            None => {
                proof {
                    lemma_assoc_absent(s0, user_token@);
                    assert(old(self)@.remove(user_token@) =~= old(self)@);
                }
            },
            Some(i) => {
                proof {
                    lemma_assoc_remove(s0, i as int);
                }
                let _removed = self.contexts.remove(i);
            },
        }
    }
}

/// Context accumulation keeps order: by `crate_new_context`'s and
/// `add_to_context`'s contracts, a transcript seeded and then appended to
/// is `initial_context() + t`, which holds the seed preamble as its prefix
/// and the appended text directly after it.
pub proof fn lemma_seed_then_append_order(t: Seq<char>)
    ensures
        (initial_context() + t).subrange(0, initial_context().len() as int) == initial_context(),
        (initial_context() + t).subrange(
            initial_context().len() as int,
            (initial_context() + t).len() as int,
        ) == t,
{
    assert((initial_context() + t).subrange(0, initial_context().len() as int)
        =~= initial_context());
    assert((initial_context() + t).subrange(
        initial_context().len() as int,
        (initial_context() + t).len() as int,
    ) =~= t);
}

} // verus!
