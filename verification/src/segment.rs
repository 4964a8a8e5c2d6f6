//! Greedy splitting of an encoded message into capacity-bounded segments.
//!
//! The splitter walks the message's unit groups left to right and fills each
//! segment with as many whole groups as fit in `cap` bytes. A group that
//! would not fit closes the open segment and starts the next one, so no
//! group is ever cut in half. The functions here are stated over the
//! abstract state of that walk: the closed segments plus the one still open.

use vstd::prelude::*;

use crate::encoding::{enc_char, encodable, groups_of};
use crate::result::MultiPartError;
use crate::values::DataCoding;

verus! {

/// One step of the greedy filler: append the group to the open segment when
/// it fits, otherwise close the segment and open a new one with the group.
pub open spec fn seg_step(
    state: (Seq<Seq<u8>>, Seq<u8>),
    g: Seq<u8>,
    cap: nat,
) -> (Seq<Seq<u8>>, Seq<u8>) {
    if state.1.len() + g.len() <= cap {
        (state.0, state.1 + g)
    } else {
        (state.0.push(state.1), g)
    }
}

/// The closed segments and the open segment after greedily filling all
/// groups, starting from nothing.
pub open spec fn seg_state(groups: Seq<Seq<u8>>, cap: nat) -> (Seq<Seq<u8>>, Seq<u8>)
    decreases groups.len(),
{
    if groups.len() == 0 {
        (Seq::empty(), Seq::empty())
    } else {
        seg_step(seg_state(groups.drop_last(), cap), groups.last(), cap)
    }
}

/// All segments of a non-empty message: the closed ones, then the open one.
pub open spec fn segments(groups: Seq<Seq<u8>>, cap: nat) -> Seq<Seq<u8>> {
    seg_state(groups, cap).0.push(seg_state(groups, cap).1)
}

/// Every group fits in a segment of its own.
pub open spec fn groups_fit(groups: Seq<Seq<u8>>, cap: nat) -> bool {
    forall|i: int| 0 <= i < groups.len() ==> (#[trigger] groups[i]).len() <= cap
}

/// Every group holds at least one byte.
pub open spec fn groups_nonempty(groups: Seq<Seq<u8>>) -> bool {
    forall|i: int| 0 <= i < groups.len() ==> (#[trigger] groups[i]).len() >= 1
}

/// The segments carry exactly the encoded message: closed segments plus the
/// open one concatenate back to the group stream.
pub proof fn lemma_seg_state_flatten(groups: Seq<Seq<u8>>, cap: nat)
    ensures
        seg_state(groups, cap).0.flatten() + seg_state(groups, cap).1 =~= groups.flatten(),
    decreases groups.len(),
{
    if groups.len() == 0 {
    } else {
        let prev = groups.drop_last();
        let g = groups.last();
        let st = seg_state(prev, cap);
        lemma_seg_state_flatten(prev, cap);
        prev.lemma_flatten_and_flatten_alt_are_equivalent();
        groups.lemma_flatten_and_flatten_alt_are_equivalent();
        assert(groups.flatten_alt() == prev.flatten_alt() + g);
        if st.1.len() + g.len() <= cap {
        } else {
            st.0.lemma_flatten_push(st.1);
        }
    }
}

/// Size bounds of the walk's state: closed segments are non-empty and within
/// capacity, the open segment is within capacity and non-empty as soon as
/// any group was placed.
pub proof fn lemma_seg_state_sizes(groups: Seq<Seq<u8>>, cap: nat)
    requires
        groups_fit(groups, cap),
        groups_nonempty(groups),
    ensures
        forall|i: int|
            0 <= i < seg_state(groups, cap).0.len() ==> 1 <= (#[trigger] seg_state(
                groups,
                cap,
            ).0[i]).len() <= cap,
        seg_state(groups, cap).1.len() <= cap,
        groups.len() > 0 ==> seg_state(groups, cap).1.len() >= 1,
        groups.len() == 0 ==> seg_state(groups, cap).0.len() == 0 && seg_state(
            groups,
            cap,
        ).1.len() == 0,
    decreases groups.len(),
{
    if groups.len() == 0 {
    } else {
        let prev = groups.drop_last();
        assert(groups_fit(prev, cap) && groups_nonempty(prev)) by {
            assert(forall|i: int| 0 <= i < prev.len() ==> prev[i] == groups[i]);
        }
        lemma_seg_state_sizes(prev, cap);
        assert(groups.last().len() <= cap);
    }
}

/// Every closed segment was filled so far that the next group would have
/// overflowed it: its length leaves less than one maximal group of slack.
pub proof fn lemma_seg_state_full(groups: Seq<Seq<u8>>, cap: nat, gmax: nat)
    requires
        forall|i: int| 0 <= i < groups.len() ==> (#[trigger] groups[i]).len() <= gmax,
    ensures
        forall|i: int|
            0 <= i < seg_state(groups, cap).0.len() ==> (#[trigger] seg_state(
                groups,
                cap,
            ).0[i]).len() + gmax > cap,
    decreases groups.len(),
{
    if groups.len() == 0 {
    } else {
        let prev = groups.drop_last();
        assert(forall|i: int| 0 <= i < prev.len() ==> (#[trigger] prev[i]).len() <= gmax) by {
            assert(forall|i: int| 0 <= i < prev.len() ==> prev[i] == groups[i]);
        }
        lemma_seg_state_full(prev, cap, gmax);
        let st = seg_state(prev, cap);
        let g = groups.last();
        assert(g.len() <= gmax);
        if st.1.len() + g.len() <= cap {
        } else {
            let closed = seg_state(groups, cap).0;
            assert(closed == st.0.push(st.1));
            assert(st.1.len() + gmax > cap);
            assert(forall|i: int|
                0 <= i < closed.len() ==> (#[trigger] closed[i]).len() + gmax > cap) by {
                assert(forall|i: int| 0 <= i < st.0.len() ==> closed[i] == st.0[i]);
                assert(closed[st.0.len() as int] == st.1);
            }
        }
    }
}

/// A flattened sequence whose elements all hold at least `lo` bytes is at
/// least `lo` times as long as the sequence.
pub proof fn lemma_flatten_length_ge_mul(ss: Seq<Seq<u8>>, lo: nat)
    requires
        forall|i: int| 0 <= i < ss.len() ==> (#[trigger] ss[i]).len() >= lo,
    ensures
        ss.flatten().len() >= ss.len() * lo,
    decreases ss.len(),
{
    ss.lemma_flatten_and_flatten_alt_are_equivalent();
    if ss.len() == 0 {
    } else {
        let prev = ss.drop_last();
        assert(forall|i: int| 0 <= i < prev.len() ==> (#[trigger] prev[i]).len() >= lo) by {
            assert(forall|i: int| 0 <= i < prev.len() ==> prev[i] == ss[i]);
        }
        lemma_flatten_length_ge_mul(prev, lo);
        prev.lemma_flatten_and_flatten_alt_are_equivalent();
        assert(ss.flatten_alt() == prev.flatten_alt() + ss.last());
        assert((ss.len() - 1) * lo == ss.len() * lo - lo) by (nonlinear_arith);
    }
}

/// The segments of a message longer than one segment's capacity number at
/// least two.
pub proof fn lemma_segments_at_least_two(groups: Seq<Seq<u8>>, cap: nat)
    requires
        groups_fit(groups, cap),
        groups_nonempty(groups),
        groups.flatten().len() > cap,
    ensures
        segments(groups, cap).len() >= 2,
{
    let st = seg_state(groups, cap);
    lemma_seg_state_flatten(groups, cap);
    lemma_seg_state_sizes(groups, cap);
    if st.0.len() == 0 {
        assert(groups.flatten().len() == st.1.len());
    }
}

/// Every segment of a non-empty message holds between one byte and the
/// capacity.
pub proof fn lemma_segments_sizes(groups: Seq<Seq<u8>>, cap: nat)
    requires
        groups_fit(groups, cap),
        groups_nonempty(groups),
        groups.len() > 0,
    ensures
        forall|k: int|
            0 <= k < segments(groups, cap).len() ==> 1 <= (#[trigger] segments(
                groups,
                cap,
            )[k]).len() <= cap,
{
    let st = seg_state(groups, cap);
    lemma_seg_state_sizes(groups, cap);
    assert(forall|k: int| 0 <= k < st.0.len() ==> segments(groups, cap)[k] == st.0[k]);
    assert(segments(groups, cap)[st.0.len() as int] == st.1);
}

/// The unit groups of an encodable message all hold one to four bytes.
pub proof fn lemma_groups_of_sizes(e: DataCoding, s: Seq<char>)
    requires
        encodable(e, s),
    ensures
        groups_nonempty(groups_of(e, s)),
        forall|i: int| 0 <= i < s.len() ==> (#[trigger] groups_of(e, s)[i]).len() <= 4,
        e is Gsm7BitUnpacked ==> forall|i: int|
            0 <= i < s.len() ==> (#[trigger] groups_of(e, s)[i]).len() <= 2,
        e is Latin1 ==> forall|i: int|
            0 <= i < s.len() ==> (#[trigger] groups_of(e, s)[i]).len() <= 1,
{
    assert forall|i: int| 0 <= i < s.len() implies 1 <= (#[trigger] groups_of(e, s)[i]).len()
        <= 4 && (e is Gsm7BitUnpacked ==> groups_of(e, s)[i].len() <= 2) && (e is Latin1
        ==> groups_of(e, s)[i].len() <= 1) by {
        crate::encoding::lemma_group_size(e, s[i]);
    }
}

/// The segments of a message concatenate back to the encoded byte stream:
/// nothing is dropped, duplicated or reordered.
pub proof fn lemma_segments_flatten(groups: Seq<Seq<u8>>, cap: nat)
    ensures
        segments(groups, cap).flatten() =~= groups.flatten(),
{
    let st = seg_state(groups, cap);
    lemma_seg_state_flatten(groups, cap);
    st.0.lemma_flatten_push(st.1);
}

/// Flattening one more element appends exactly that element's bytes.
pub proof fn lemma_flatten_take_step(ss: Seq<Seq<u8>>, i: int)
    requires
        0 <= i < ss.len(),
    ensures
        ss.take(i + 1).flatten() == ss.take(i).flatten() + ss[i],
{
    assert(ss.take(i + 1) =~= ss.take(i).push(ss[i]));
    ss.take(i).lemma_flatten_push(ss[i]);
}

/// Processing one more character steps the walk's state once.
pub proof fn lemma_seg_state_char_step(e: DataCoding, s: Seq<char>, i: int, cap: nat)
    requires
        0 <= i < s.len(),
    ensures
        seg_state(groups_of(e, s.take(i + 1)), cap) == seg_step(
            seg_state(groups_of(e, s.take(i)), cap),
            enc_char(e, s[i])->Some_0,
            cap,
        ),
{
    let g = enc_char(e, s[i])->Some_0;
    let gs = groups_of(e, s.take(i + 1));
    assert(gs.drop_last() =~= groups_of(e, s.take(i)));
    assert(gs.last() == g);
    assert(gs.len() > 0);
}

/// Splits an encodable message into greedily filled segments of at most
/// `cap` bytes, never cutting a character's unit group.
pub fn split_message(e: DataCoding, s: &str, cap: usize) -> (r: Result<Vec<Vec<u8>>, MultiPartError>)
    requires
        encodable(e, s@),
        s@.len() > 0,
    ensures
        match r {
            Ok(parts) => {
                &&& groups_fit(groups_of(e, s@), cap as nat)
                &&& parts@.len() == segments(groups_of(e, s@), cap as nat).len()
                &&& forall|k: int|
                    0 <= k < parts@.len() ==> (#[trigger] parts@[k])@ == segments(
                        groups_of(e, s@),
                        cap as nat,
                    )[k]
            },
            Err(err) => {
                &&& err == MultiPartError::CapacityExhausted
                &&& !groups_fit(groups_of(e, s@), cap as nat)
            },
        },
{
    let ghost gs = groups_of(e, s@);
    let n = s.unicode_len();
    let mut parts: Vec<Vec<u8>> = Vec::new();
    let mut cur: Vec<u8> = Vec::new();
    let mut i: usize = 0;
    while i < n
        invariant
            encodable(e, s@),
            gs == groups_of(e, s@),
            n == s@.len(),
            i <= n,
            cur@.len() <= cap,
            groups_fit(groups_of(e, s@.take(i as int)), cap as nat),
            parts@.len() == seg_state(groups_of(e, s@.take(i as int)), cap as nat).0.len(),
            forall|k: int|
                0 <= k < parts@.len() ==> (#[trigger] parts@[k])@ == seg_state(
                    groups_of(e, s@.take(i as int)),
                    cap as nat,
                ).0[k],
            cur@ == seg_state(groups_of(e, s@.take(i as int)), cap as nat).1,
        decreases n - i,
    {
        let c = s.get_char(i);
        assert(enc_char(e, s@[i as int]) is Some);
        let g = match crate::encoding::char_group(e, c) {
            Some(g) => g,
            None => unreached(),
        };
        proof {
            lemma_seg_state_char_step(e, s@, i as int, cap as nat);
            assert(groups_of(e, s@.take(i as int + 1)).drop_last() =~= groups_of(
                e,
                s@.take(i as int),
            ));
        }
        if g.len() > cap {
            proof {
                assert(groups_of(e, s@)[i as int].len() > cap);
            }
            return Err(MultiPartError::CapacityExhausted);
        }
        if g.len() <= cap - cur.len() {
            let mut g = g;
            cur.append(&mut g);
        } else {
            let full = cur;
            cur = g;
            parts.push(full);
        }
        proof {
            let next = groups_of(e, s@.take(i as int + 1));
            assert(forall|j: int| 0 <= j < next.len() ==> (#[trigger] next[j]).len() <= cap) by {
                assert(forall|j: int|
                    0 <= j < i as int ==> next[j] == groups_of(e, s@.take(i as int))[j]);
                assert(next[i as int] == g@);
            }
        }
        i = i + 1;
    }
    proof {
        assert(s@.take(n as int) =~= s@);
    }
    parts.push(cur);
    Ok(parts)
}

} // verus!
