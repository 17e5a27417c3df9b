//! Listing the identifiers OBS enumerates one index at a time.
//!
//! OBS reports its registered source, output, encoder and service types
//! through calls such as `obs_enum_output_types(idx, &id)`: each call either
//! ends the enumeration or yields the identifier at `idx`, which may be
//! null. A [`TypeListing`] takes those replies one by one and says which
//! index to ask for next; the caller makes the calls.

use vstd::prelude::*;

verus! {

/// One reply of an OBS type enumeration.
#[derive(Debug, Clone, PartialEq, Eq)]
pub enum EnumReply {
    /// The enumeration is over.
    End,
    /// An entry whose identifier is null.
    Null,
    /// An entry with this identifier.
    Id(String),
}

/// The identifiers gathered so far from an OBS type enumeration.
pub struct TypeListing {
    types: Vec<String>,
    done: bool,
}

/// What one reply does to a listing: after the end nothing changes;
/// otherwise `End` ends it, `Null` lists the empty string, and `Id(s)`
/// lists `s`.
pub open spec fn spec_step(before: TypeListing, reply: EnumReply, after: TypeListing) -> bool {
    if before.spec_done() {
        after == before
    } else {
        match reply {
            EnumReply::End => after.spec_done() && after.spec_types() == before.spec_types(),
            EnumReply::Null => !after.spec_done() && after.spec_types()
                == before.spec_types().push(Seq::<char>::empty()),
            EnumReply::Id(s) => !after.spec_done() && after.spec_types()
                == before.spec_types().push(s@),
        }
    }
}

/// The identifiers a run of replies lists: one per reply before the first
/// `End` (the empty string for `Null`).
pub open spec fn listed(replies: Seq<EnumReply>) -> Seq<Seq<char>>
    decreases replies.len(),
{
    if replies.len() == 0 {
        Seq::empty()
    } else {
        match replies[0] {
            EnumReply::End => Seq::empty(),
            EnumReply::Null => seq![Seq::<char>::empty()] + listed(replies.drop_first()),
            EnumReply::Id(s) => seq![s@] + listed(replies.drop_first()),
        }
    }
}

/// Whether a run of replies holds an `End`.
pub open spec fn has_end(replies: Seq<EnumReply>) -> bool {
    exists|k: int| 0 <= k < replies.len() && replies[k] is End
}

proof fn lemma_steps(states: Seq<TypeListing>, replies: Seq<EnumReply>)
    requires
        states.len() == replies.len() + 1,
        forall|k: int| 0 <= k < replies.len() ==> spec_step(states[k], replies[k], states[k + 1]),
    ensures
        states.last().spec_types() == if states[0].spec_done() {
            states[0].spec_types()
        } else {
            states[0].spec_types() + listed(replies)
        },
        states.last().spec_done() == (states[0].spec_done() || has_end(replies)),
    decreases replies.len(),
{
    if replies.len() == 0 {
        assert(states[0].spec_types() + listed(replies) =~= states[0].spec_types());
        assert(!has_end(replies));
    } else {
        let rest_states = states.drop_first();
        let rest = replies.drop_first();
        assert forall|k: int| 0 <= k < rest.len() implies spec_step(
            rest_states[k],
            rest[k],
            rest_states[k + 1],
        ) by {
            assert(spec_step(states[k + 1], replies[k + 1], states[k + 2]));
        }
        lemma_steps(rest_states, rest);
        assert(spec_step(states[0], replies[0], states[1]));
        assert(has_end(replies) == (replies[0] is End || has_end(rest))) by {
            if has_end(rest) {
                let k = choose|k: int| 0 <= k < rest.len() && rest[k] is End;
                assert(replies[k + 1] is End);
            }
            if has_end(replies) && !(replies[0] is End) {
                let k = choose|k: int| 0 <= k < replies.len() && replies[k] is End;
                assert(rest[k - 1] is End);
            }
        }
        if !states[0].spec_done() {
            match replies[0] {
                EnumReply::End => {
                    assert(states[1].spec_done());
                },
                EnumReply::Null => {
                    assert(states[0].spec_types() + listed(replies) =~= states[1].spec_types()
                        + listed(rest));
                },
                EnumReply::Id(s) => {
                    assert(states[0].spec_types() + listed(replies) =~= states[1].spec_types()
                        + listed(rest));
                },
            }
        }
    }
}

/// Feeding a fresh listing OBS's replies one by one lists exactly one
/// identifier per reply before the first `End`, in order, and the listing
/// has ended exactly when an `End` came: `states[k + 1]` is `states[k]`
/// after [`TypeListing::step`] with `replies[k]`.
pub proof fn lemma_listing_gathers_replies(states: Seq<TypeListing>, replies: Seq<EnumReply>)
    requires
        states.len() == replies.len() + 1,
        states[0].spec_types() == Seq::<Seq<char>>::empty(),
        !states[0].spec_done(),
        forall|k: int| 0 <= k < replies.len() ==> spec_step(states[k], replies[k], states[k + 1]),
    ensures
        states.last().spec_types() == listed(replies),
        states.last().spec_done() == has_end(replies),
{
    lemma_steps(states, replies);
    assert(Seq::<Seq<char>>::empty() + listed(replies) =~= listed(replies));
}

impl TypeListing {
    /// The identifiers gathered so far, in enumeration order; a null
    /// identifier is listed as the empty string.
    pub closed spec fn spec_types(&self) -> Seq<Seq<char>> {
        self.types@.map_values(|s: String| s@)
    }

    /// Whether the enumeration has ended.
    pub closed spec fn spec_done(&self) -> bool {
        self.done
    }

    /// A listing that has gathered nothing and awaits index 0.
    pub fn new() -> (r: Self)
        ensures
            r.spec_types() == Seq::<Seq<char>>::empty(),
            !r.spec_done(),
    {
        TypeListing { types: Vec::new(), done: false }
    }

    /// The index to ask OBS for next: one per identifier gathered.
    pub fn next_index(&self) -> (r: usize)
        ensures
            r == self.spec_types().len(),
    {
        self.types.len()
    }

    /// Whether the enumeration has ended.
    pub fn is_done(&self) -> (r: bool)
        ensures
            r == self.spec_done(),
    {
        self.done
    }

    /// Takes OBS's reply for [`next_index`](Self::next_index). Returns
    /// whether the enumeration goes on. A reply after the end changes
    /// nothing.
    pub fn step(&mut self, reply: EnumReply) -> (more: bool)
        ensures
            more == !final(self).spec_done(),
            spec_step(*old(self), reply, *final(self)),
    {
        if self.done {
            return false;
        }
        let ghost before = self.types@;
        match reply {
            EnumReply::End => {
                self.done = true;
            },
            EnumReply::Null => {
                self.types.push(String::new());
                proof {
                    assert(self.types@.map_values(|s: String| s@) =~= before.map_values(
                        |s: String| s@,
                    ).push(Seq::<char>::empty()));
                }
            },
            EnumReply::Id(s) => {
                let ghost v = s@;
                self.types.push(s);
                proof {
                    assert(self.types@.map_values(|s: String| s@) =~= before.map_values(
                        |s: String| s@,
                    ).push(v));
                }
            },
        }
        !self.done
    }

    /// The identifiers gathered, in enumeration order.
    pub fn into_types(self) -> (r: Vec<String>)
        ensures
            r@.map_values(|s: String| s@) == self.spec_types(),
    {
        self.types
    }
}

} // verus!
