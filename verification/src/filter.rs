//! Filter bank management: the 28 hardware filter banks, each either
//! inactive (free for allocation) or active with a programmed
//! identifier/mask pair.
//!
//! Adding a filter takes the first inactive bank in scan order and programs
//! its mode, scale, identifier and mask registers before setting the
//! activation flag — activation comes last, so a partially programmed bank
//! can never match live traffic.  With every bank active, an add is a
//! silent no-op.  Removal deactivates the first active bank whose
//! identifier register holds the filter's programmed identifier value.

use vstd::prelude::*;

verus! {

/// An incoming-message filter: an identifier and an optional mask.  A
/// missing mask means "match exactly", programmed as an all-ones mask.
#[derive(Clone, Copy, PartialEq, Eq, Structural, Debug)]
pub struct MessageFilter {
    /// The CAN identifier (or masked subset of one) to admit.
    pub id: u32,
    /// Incoming identifiers are masked with this before comparison, when
    /// present.
    pub mask: Option<u32>,
}

impl MessageFilter {
    /// The filter invariant: identifier and mask fit the 29-bit register
    /// field (they are programmed shifted up by 3 bits).
    pub open spec fn valid(self) -> bool {
        &&& self.id < 0x2000_0000u32
        &&& (self.mask is Some ==> self.mask.unwrap() < 0x2000_0000u32)
    }
}

/// The mirrored register fields of one filter bank.
#[derive(Clone, Copy, PartialEq, Eq, Structural, Debug)]
pub struct FilterBank {
    /// Activation flag: true iff the bank matches incoming traffic.
    pub active: bool,
    /// Scale-configuration flag: true selects one 32-bit filter.
    pub single_32bit_scale: bool,
    /// Mode flag: true selects identifier-list mode, false mask mode.
    pub list_mode: bool,
    /// The programmed identifier register.
    pub id_word: u32,
    /// The programmed mask register.
    pub mask_word: u32,
}

/// How many hardware filter banks the controller has.
pub const FILTER_BANK_COUNT: usize = 28;

/// A filter identifier as it stands in the bank's identifier register.
pub open spec fn programmed_id(id: u32) -> u32 {
    id << 3u32
}

/// A filter mask as it stands in the bank's mask register: the mask shifted
/// like the identifier, or all ones when no mask was given.
pub open spec fn programmed_mask(mask: Option<u32>) -> u32 {
    match mask {
        Option::Some(m) => m << 3u32,
        Option::None => 0xFFFF_FFFFu32,
    }
}

/// A bank fully programmed for a filter: 32-bit scale, mask mode,
/// identifier and mask registers set, activation flag set.
pub open spec fn programmed_bank(f: MessageFilter) -> FilterBank {
    FilterBank {
        active: true,
        single_32bit_scale: true,
        list_mode: false,
        id_word: programmed_id(f.id),
        mask_word: programmed_mask(f.mask),
    }
}

/// A bank with its activation flag cleared and its registers kept.
pub open spec fn deactivated(b: FilterBank) -> FilterBank {
    FilterBank { active: false, ..b }
}

/// The index of the first inactive bank at or after `i`; `s.len()` when
/// every bank from `i` on is active.
pub open spec fn first_inactive_from(s: Seq<FilterBank>, i: int) -> int
    decreases s.len() - i,
{
    if i < 0 || i >= s.len() {
        s.len() as int
    } else if !s[i].active {
        i
    } else {
        first_inactive_from(s, i + 1)
    }
}

/// The index of the first active bank at or after `i` whose identifier
/// register holds `id_word`; `s.len()` when there is none.
pub open spec fn first_match_from(s: Seq<FilterBank>, id_word: u32, i: int) -> int
    decreases s.len() - i,
{
    if i < 0 || i >= s.len() {
        s.len() as int
    } else if s[i].active && s[i].id_word == id_word {
        i
    } else {
        first_match_from(s, id_word, i + 1)
    }
}

/// The add transition: the first inactive bank is programmed for the
/// filter and activated; with no inactive bank the state is unchanged.
pub open spec fn add_transition(s: Seq<FilterBank>, f: MessageFilter) -> Seq<FilterBank> {
    let i = first_inactive_from(s, 0);
    if i < s.len() {
        s.update(i, programmed_bank(f))
    } else {
        s
    }
}

/// The remove transition: the first active bank whose identifier register
/// holds the programmed identifier is deactivated; with no such bank the
/// state is unchanged.
pub open spec fn remove_transition(s: Seq<FilterBank>, id_word: u32) -> Seq<FilterBank> {
    let i = first_match_from(s, id_word, 0);
    if i < s.len() {
        s.update(i, deactivated(s[i]))
    } else {
        s
    }
}

/// How many of the first `n` banks are inactive.
pub open spec fn inactive_in_prefix(s: Seq<FilterBank>, n: int) -> int
    decreases n,
{
    if n <= 0 {
        0
    } else {
        inactive_in_prefix(s, n - 1) + (if !s[n - 1].active {
            1int
        } else {
            0int
        })
    }
}

/// How many banks are free for allocation.
pub open spec fn unused_count_spec(s: Seq<FilterBank>) -> int {
    inactive_in_prefix(s, s.len() as int)
}

/// At most one active bank holds the given identifier register value: the
/// documented usage precondition — callers never add the same filter twice
/// without removing it in between.
pub open spec fn no_duplicate_match(s: Seq<FilterBank>, id_word: u32) -> bool {
    forall|i: int, j: int|
        0 <= i < j < s.len() ==> !(s[i].active && s[i].id_word == id_word && s[j].active
            && s[j].id_word == id_word)
}

/// The inactive count of a prefix is between 0 and the prefix length.
pub proof fn lemma_prefix_count_bounds(s: Seq<FilterBank>, n: int)
    requires
        0 <= n <= s.len(),
    ensures
        0 <= inactive_in_prefix(s, n) <= n,
    decreases n,
{
    if n > 0 {
        lemma_prefix_count_bounds(s, n - 1);
    }
}

/// Updating one bank inside the prefix shifts the inactive count by the
/// difference the update makes at that bank; an update beyond the prefix
/// leaves the count alone.
pub proof fn lemma_prefix_count_update(s: Seq<FilterBank>, i: int, b: FilterBank, n: int)
    requires
        0 <= i < s.len(),
        n <= s.len(),
    ensures
        inactive_in_prefix(s.update(i, b), n) == inactive_in_prefix(s, n) + (if i < n {
            (if !b.active { 1int } else { 0int }) - (if !s[i].active { 1int } else { 0int })
        } else {
            0int
        }),
    decreases n,
{
    if n > 0 {
        lemma_prefix_count_update(s, i, b, n - 1);
    }
}

/// A prefix holds an inactive bank exactly when its inactive count is
/// positive.
pub proof fn lemma_prefix_count_positive(s: Seq<FilterBank>, n: int)
    requires
        n <= s.len(),
    ensures
        inactive_in_prefix(s, n) > 0 <==> exists|k: int| 0 <= k < n && !s[k].active,
    decreases n,
{
    if n > 0 {
        lemma_prefix_count_positive(s, n - 1);
        lemma_prefix_count_bounds(s, n - 1);
        if !s[n - 1].active {
            assert(exists|k: int| 0 <= k < n && !s[k].active);
        }
        if exists|k: int| 0 <= k < n && !s[k].active {
            let k = choose|k: int| 0 <= k < n && !s[k].active;
            if k < n - 1 {
                assert(exists|k2: int| 0 <= k2 < n - 1 && !s[k2].active);
            }
        }
    }
}

/// `first_inactive_from(s, i)` is what its name says: every bank from `i`
/// up to it is active, and it is either an inactive bank's index or the
/// length.
pub proof fn lemma_first_inactive_properties(s: Seq<FilterBank>, i: int)
    requires
        0 <= i <= s.len(),
    ensures
        i <= first_inactive_from(s, i) <= s.len(),
        first_inactive_from(s, i) < s.len() ==> !s[first_inactive_from(s, i)].active,
        forall|k: int| i <= k < first_inactive_from(s, i) ==> s[k].active,
        first_inactive_from(s, i) == s.len() ==> forall|k: int| i <= k < s.len() ==> s[k].active,
    decreases s.len() - i,
{
    if i < s.len() && s[i].active {
        lemma_first_inactive_properties(s, i + 1);
    }
}

/// `first_match_from(s, id_word, i)` is what its name says: no active bank
/// from `i` up to it matches, and it is either a matching active bank's
/// index or the length.
pub proof fn lemma_first_match_properties(s: Seq<FilterBank>, id_word: u32, i: int)
    requires
        0 <= i <= s.len(),
    ensures
        i <= first_match_from(s, id_word, i) <= s.len(),
        first_match_from(s, id_word, i) < s.len() ==> (s[first_match_from(s, id_word, i)].active
            && s[first_match_from(s, id_word, i)].id_word == id_word),
        forall|k: int|
            i <= k < first_match_from(s, id_word, i) ==> !(s[k].active && s[k].id_word == id_word),
        first_match_from(s, id_word, i) == s.len() ==> forall|k: int|
            i <= k < s.len() ==> !(s[k].active && s[k].id_word == id_word),
    decreases s.len() - i,
{
    if i < s.len() && !(s[i].active && s[i].id_word == id_word) {
        lemma_first_match_properties(s, id_word, i + 1);
    }
}

/// A scan that has passed only active banks has not passed the first
/// inactive one: the search may as well start at `i`.
pub proof fn lemma_first_inactive_scan(s: Seq<FilterBank>, i: int)
    requires
        0 <= i <= s.len(),
        forall|k: int| 0 <= k < i ==> s[k].active,
    ensures
        first_inactive_from(s, 0) == first_inactive_from(s, i),
    decreases i,
{
    if i > 0 {
        lemma_first_inactive_scan(s, i - 1);
    }
}

/// A scan that has passed only non-matching banks has not passed the first
/// match: the search may as well start at `i`.
pub proof fn lemma_first_match_scan(s: Seq<FilterBank>, id_word: u32, i: int)
    requires
        0 <= i <= s.len(),
        forall|k: int| 0 <= k < i ==> !(s[k].active && s[k].id_word == id_word),
    ensures
        first_match_from(s, id_word, 0) == first_match_from(s, id_word, i),
    decreases i,
{
    if i > 0 {
        lemma_first_match_scan(s, id_word, i - 1);
    }
}

/// Filter allocation: while a bank is free, an add consumes exactly one
/// free bank; with no bank free, an add changes nothing at all.
pub proof fn lemma_filter_allocation(s: Seq<FilterBank>, f: MessageFilter)
    ensures
        unused_count_spec(s) > 0 ==> unused_count_spec(add_transition(s, f)) == unused_count_spec(s)
            - 1,
        unused_count_spec(s) == 0 ==> add_transition(s, f) == s,
{
    let n = s.len() as int;
    lemma_prefix_count_positive(s, n);
    lemma_first_inactive_properties(s, 0);
    let i = first_inactive_from(s, 0);
    if unused_count_spec(s) > 0 {
        assert(i < n);
        lemma_prefix_count_update(s, i, programmed_bank(f), n);
    } else {
        if i < n {
            assert(exists|k: int| 0 <= k < n && !s[k].active);
        }
    }
}

/// Filter removal is idempotent: removing the same filter a second time,
/// or removing one that no active bank holds, leaves the banks unchanged.
/// The precondition is the documented usage rule that at most one active
/// bank holds a given identifier.
pub proof fn lemma_filter_removal_idempotent(s: Seq<FilterBank>, id_word: u32)
    requires
        no_duplicate_match(s, id_word),
    ensures
        remove_transition(remove_transition(s, id_word), id_word) == remove_transition(s, id_word),
        (forall|k: int|
            0 <= k < s.len() ==> !(s[k].active && s[k].id_word == id_word)) ==> remove_transition(
            s,
            id_word,
        ) == s,
{
    let n = s.len() as int;
    lemma_first_match_properties(s, id_word, 0);
    let i = first_match_from(s, id_word, 0);
    if i < n {
        let s1 = s.update(i, deactivated(s[i]));
        lemma_first_match_properties(s1, id_word, 0);
        let j = first_match_from(s1, id_word, 0);
        if j < n {
            assert(s1[j].active && s1[j].id_word == id_word);
            assert(j != i);
            assert(s[j].active && s[j].id_word == id_word);
            if j < i {
                assert(!(s[j].active && s[j].id_word == id_word));
            }
            assert(false);
        }
        assert(remove_transition(s1, id_word) == s1);
    }
}

} // verus!
