//! Tolerant parsing of instrument data lines.
//!
//! A data line starts with the sentinel `SENSOR:`; the remainder is a
//! comma-separated list of decimal numbers.  The library splits the payload
//! into tokens; the process around it converts each token to a number (or
//! fails, for a malformed token) and hands the per-token results back, where
//! `select_readings` applies the drop policy: unparseable tokens are dropped,
//! and a line with fewer than nine remaining values is discarded.
//!
//! Each successful conversion arrives as a pair: the bit pattern of the
//! token's single-precision value, and that value truncated to an integer
//! (used for the state and level fields).

use vstd::prelude::*;
use vstd::slice::{slice_subrange, slice_to_vec};
use crate::filtering::UnifiedSensorRaw;

verus! {

/// The byte that separates tokens of a data line.
pub const COMMA: u8 = 44;

/// Why a line produced no reading: it does not carry the `SENSOR:` sentinel,
/// or fewer than nine of its tokens parsed as numbers.
#[derive(Clone, Copy, Debug, PartialEq, Eq, Structural)]
pub enum DataLineError {
    NotData,
    TooFewValues,
}

/// The line starts with the bytes of the sentinel `SENSOR:`.
pub open spec fn is_data_line(s: Seq<u8>) -> bool {
    &&& s.len() >= 7
    &&& s[0] == 83u8
    &&& s[1] == 69u8
    &&& s[2] == 78u8
    &&& s[3] == 83u8
    &&& s[4] == 79u8
    &&& s[5] == 82u8
    &&& s[6] == 58u8
}

/// The comma-separated tokens of a byte sequence, in order.  Splitting keeps
/// empty tokens: an empty payload is one empty token, and adjacent commas
/// produce empty tokens between them.
pub open spec fn split_commas(s: Seq<u8>) -> Seq<Seq<u8>>
    decreases s.len(),
{
    if s.len() == 0 {
        seq![Seq::<u8>::empty()]
    } else if s[0] == COMMA {
        seq![Seq::<u8>::empty()] + split_commas(s.drop_first())
    } else {
        let r = split_commas(s.drop_first());
        seq![seq![s[0]] + r[0]] + r.drop_first()
    }
}

/// The views of a sequence of owned tokens.
pub open spec fn views_of(ts: Seq<Vec<u8>>) -> Seq<Seq<u8>> {
    ts.map_values(|t: Vec<u8>| t@)
}

proof fn lemma_split_first_token(s: Seq<u8>, k: int)
    requires
        0 <= k <= s.len(),
        forall|j: int| 0 <= j < k ==> s[j] != COMMA,
        k < s.len() ==> s[k] == COMMA,
    ensures
        k == s.len() ==> split_commas(s) =~~= seq![s],
        k < s.len() ==> split_commas(s) =~~= seq![s.take(k)] + split_commas(s.skip(k + 1)),
    decreases k,
{
    if k == 0 {
        if s.len() == 0 {
            assert(split_commas(s) =~~= seq![s]);
        } else {
            assert(s[0] == COMMA);
            assert(s.take(0) =~= Seq::<u8>::empty());
            assert(s.skip(1) =~= s.drop_first());
        }
    } else {
        assert(s[0] != COMMA);
        let d = s.drop_first();
        lemma_split_first_token(d, k - 1);
        let r = split_commas(d);
        if k == s.len() {
            assert(r =~~= seq![d]);
            assert(seq![s[0]] + d =~= s);
            assert(split_commas(s) =~~= seq![s]);
        } else {
            assert(d[k - 1] == s[k]);
            assert(r =~~= seq![d.take(k - 1)] + split_commas(d.skip(k)));
            assert(r[0] =~= d.take(k - 1));
            assert(seq![s[0]] + d.take(k - 1) =~= s.take(k));
            assert(d.skip(k) =~= s.skip(k + 1));
            assert(r.drop_first() =~~= split_commas(s.skip(k + 1)));
            assert(split_commas(s) =~~= seq![s.take(k)] + split_commas(s.skip(k + 1)));
        }
    }
}

/// Splits a data line into the comma-separated tokens of its payload, the
/// bytes after the `SENSOR:` sentinel.  A line without the sentinel is not a
/// data line and is rejected.
pub fn split_data_line(line: &[u8]) -> (r: Result<Vec<Vec<u8>>, DataLineError>)
    ensures
        !is_data_line(line@) ==> r == Err::<Vec<Vec<u8>>, DataLineError>(DataLineError::NotData),
        is_data_line(line@) ==> (r matches Ok(toks) && views_of(toks@)
            == split_commas(line@.skip(7))),
{
    if !(line.len() >= 7 && line[0] == 83 && line[1] == 69 && line[2] == 78 && line[3] == 83
        && line[4] == 79 && line[5] == 82 && line[6] == 58) {
        return Err(DataLineError::NotData);
    }
    let mut toks: Vec<Vec<u8>> = Vec::new();
    let mut start: usize = 7;
    proof {
        assert(views_of(toks@) =~~= Seq::<Seq<u8>>::empty());
    }
    loop
        invariant_except_break
            split_commas(line@.skip(7)) == views_of(toks@) + split_commas(
                line@.skip(start as int),
            ),
        invariant
            7 <= start <= line@.len(),
            is_data_line(line@),
        ensures
            views_of(toks@) == split_commas(line@.skip(7)),
        decreases line@.len() - start,
    {
        let ghost t = line@.skip(start as int);
        let mut i: usize = start;
        while i < line.len() && line[i] != COMMA
            invariant
                start <= i <= line@.len(),
                forall|j: int| start <= j < i ==> line@[j] != COMMA,
            decreases line@.len() - i,
        {
            i += 1;
        }
        let tok: Vec<u8> = slice_to_vec(slice_subrange(line, start, i));
        proof {
            assert forall|j: int| 0 <= j < i - start implies t[j] != COMMA by {
                assert(t[j] == line@[start + j]);
            }
            if (i as int) - (start as int) < t.len() {
                assert(t[i - start] == line@[i as int]);
            }
            lemma_split_first_token(t, i - start);
            assert(tok@ =~= t.take(i - start));
        }
        let ghost pre = views_of(toks@);
        toks.push(tok);
        proof {
            assert(views_of(toks@) =~~= pre + seq![tok@]);
        }
        if i == line.len() {
            proof {
                assert(t =~= tok@);
                assert(split_commas(t) =~~= seq![tok@]);
                assert(pre + seq![tok@] =~~= views_of(toks@));
                assert(views_of(toks@) =~~= split_commas(line@.skip(7)));
            }
            break;
        } else {
            proof {
                assert(t.skip(i - start + 1) =~= line@.skip(i + 1));
                assert(split_commas(t) =~~= seq![tok@] + split_commas(line@.skip(i + 1)));
                assert(pre + (seq![tok@] + split_commas(line@.skip(i + 1))) =~~= (pre
                    + seq![tok@]) + split_commas(line@.skip(i + 1)));
            }
            start = i + 1;
        }
    }
    Ok(toks)
}

/// The values of one per-token parse result: a parsed token contributes its
/// value, a malformed one contributes nothing.
pub open spec fn entry_values(e: Option<(u32, i32)>) -> Seq<(u32, i32)> {
    match e {
        Some(v) => seq![v],
        None => Seq::empty(),
    }
}

/// The values of the tokens that parsed, in token order, with every malformed
/// token dropped.
pub open spec fn valid_entries(parsed: Seq<Option<(u32, i32)>>) -> Seq<(u32, i32)>
    decreases parsed.len(),
{
    if parsed.len() == 0 {
        Seq::empty()
    } else {
        entry_values(parsed[0]) + valid_entries(parsed.drop_first())
    }
}

/// The reading assembled from the first nine valid values: the first seven
/// are the channel bit patterns, the eighth and ninth are truncated to the
/// integer state and level.
pub open spec fn raw_from_entries(vals: Seq<(u32, i32)>) -> UnifiedSensorRaw {
    UnifiedSensorRaw {
        no2: vals[0].0,
        eth: vals[1].0,
        voc: vals[2].0,
        co: vals[3].0,
        com: vals[4].0,
        ethm: vals[5].0,
        vocm: vals[6].0,
        state: vals[7].1,
        level: vals[8].1,
    }
}

proof fn lemma_valid_entries_push(s: Seq<Option<(u32, i32)>>, x: Option<(u32, i32)>)
    ensures
        valid_entries(s.push(x)) =~= valid_entries(s) + entry_values(x),
    decreases s.len(),
{
    if s.len() == 0 {
        assert(s.push(x)[0] == x);
        assert(s.push(x).drop_first() =~= Seq::<Option<(u32, i32)>>::empty());
        assert(valid_entries(s.push(x)) =~= entry_values(x) + valid_entries(
            Seq::<Option<(u32, i32)>>::empty(),
        ));
        assert(entry_values(x) + Seq::<(u32, i32)>::empty() =~= entry_values(x));
        assert(Seq::<(u32, i32)>::empty() + entry_values(x) =~= entry_values(x));
    } else {
        assert(s.push(x)[0] == s[0]);
        assert(s.push(x).drop_first() =~= s.drop_first().push(x));
        lemma_valid_entries_push(s.drop_first(), x);
        assert(entry_values(s[0]) + (valid_entries(s.drop_first()) + entry_values(x))
            =~= (entry_values(s[0]) + valid_entries(s.drop_first())) + entry_values(x));
    }
}

/// The drop policy of tolerant parsing, applied to the per-token parse
/// results of one data line: malformed tokens are dropped; if fewer than nine
/// values remain the line is discarded, otherwise the first nine values form
/// the reading.  This policy is a function of the parse results alone, so it
/// can be exercised apart from any connection.
pub fn select_readings(parsed: &Vec<Option<(u32, i32)>>) -> (r: Result<
    UnifiedSensorRaw,
    DataLineError,
>)
    ensures
        valid_entries(parsed@).len() < 9 ==> r == Err::<UnifiedSensorRaw, DataLineError>(
            DataLineError::TooFewValues,
        ),
        valid_entries(parsed@).len() >= 9 ==> r == Ok::<UnifiedSensorRaw, DataLineError>(
            raw_from_entries(valid_entries(parsed@)),
        ),
{
    let mut vals: Vec<(u32, i32)> = Vec::new();
    let mut i: usize = 0;
    while i < parsed.len()
        invariant
            i <= parsed@.len(),
            vals@ == valid_entries(parsed@.take(i as int)),
        decreases parsed@.len() - i,
    {
        proof {
            assert(parsed@.take(i + 1) =~= parsed@.take(i as int).push(parsed@[i as int]));
            lemma_valid_entries_push(parsed@.take(i as int), parsed@[i as int]);
        }
        match parsed[i] {
            Some(e) => {
                vals.push(e);
                proof {
                    assert(vals@ =~= valid_entries(parsed@.take(i + 1)));
                }
            },
            None => {
                proof {
                    assert(vals@ =~= valid_entries(parsed@.take(i + 1)));
                }
            },
        }
        i += 1;
    }
    proof {
        assert(parsed@.take(parsed@.len() as int) =~= parsed@);
    }
    if vals.len() < 9 {
        Err(DataLineError::TooFewValues)
    } else {
        Ok(UnifiedSensorRaw {
            no2: vals[0].0,
            eth: vals[1].0,
            voc: vals[2].0,
            co: vals[3].0,
            com: vals[4].0,
            ethm: vals[5].0,
            vocm: vals[6].0,
            state: vals[7].1,
            level: vals[8].1,
        })
    }
}

/// Law: a malformed token is dropped, not counted: inserting a failed parse
/// result anywhere among the per-token results leaves the selected values,
/// and so the reading, untouched.
pub proof fn lemma_invalid_entry_dropped(parsed: Seq<Option<(u32, i32)>>, i: int)
    requires
        0 <= i <= parsed.len(),
    ensures
        valid_entries(parsed.insert(i, None::<(u32, i32)>)) =~= valid_entries(parsed),
    decreases i,
{
    let t = parsed.insert(i, None::<(u32, i32)>);
    if i == 0 {
        assert(t[0] == None::<(u32, i32)>);
        assert(t.drop_first() =~= parsed);
        assert(valid_entries(t) =~= valid_entries(parsed));
    } else {
        assert(t[0] == parsed[0]);
        assert(t.drop_first() =~= parsed.drop_first().insert(i - 1, None::<(u32, i32)>));
        lemma_invalid_entry_dropped(parsed.drop_first(), i - 1);
        assert(valid_entries(t) =~= valid_entries(parsed));
    }
}

} // verus!
