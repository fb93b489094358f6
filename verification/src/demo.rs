//! The concrete values that the container demonstrations are run on: a
//! coordinate triple, colour channels, a list of names, small integer
//! sequences, and a four-entry price mapping.

use vstd::prelude::*;
use crate::labelmap::LabelMap;

verus! {

/// The coordinate triple shown in the tuple demonstration.
pub fn point() -> (p: (i32, i32, i32))
    ensures
        p == (3i32, 4i32, 5i32),
{
    (3, 4, 5)
}

/// The red, green and blue channels of the colour record.
pub fn rgb_channels() -> (c: (u8, u8, u8))
    ensures
        c == (100u8, 255u8, 20u8),
{
    (100, 255, 20)
}

/// The four names shown in the array demonstration.
pub fn names() -> (r: Vec<String>)
    ensures
        r@.len() == 4,
        r@[0]@ == "Chase"@,
        r@[1]@ == "Alecia"@,
        r@[2]@ == "Rilyn"@,
        r@[3]@ == "Jaylee"@,
{
    let mut r: Vec<String> = Vec::new();
    r.push("Chase".to_owned());
    r.push("Alecia".to_owned());
    r.push("Rilyn".to_owned());
    r.push("Jaylee".to_owned());
    r
}

/// The unsorted numeric sample of the array demonstration.
pub fn sample_values() -> (v: Vec<i32>)
    ensures
        v@ == seq![10i32, 12i32, 4i32, 2i32, 100i32],
{
    let mut v: Vec<i32> = Vec::new();
    v.push(10);
    v.push(12);
    v.push(4);
    v.push(2);
    v.push(100);
    proof {
        assert(v@ =~= seq![10i32, 12i32, 4i32, 2i32, 100i32]);
    }
    v
}

/// The even numbers of the vector demonstration, with the later append
/// of 10 already made.
pub fn evens() -> (v: Vec<i32>)
    ensures
        v@ == seq![2i32, 4i32, 6i32, 8i32, 10i32],
{
    let mut v: Vec<i32> = Vec::new();
    v.push(2);
    v.push(4);
    v.push(6);
    v.push(8);
    v.push(10);
    proof {
        assert(v@ =~= seq![2i32, 4i32, 6i32, 8i32, 10i32]);
    }
    v
}

/// The odd numbers of the vector demonstration.
pub fn odds() -> (v: Vec<i32>)
    ensures
        v@ == seq![1i32, 3i32],
{
    let mut v: Vec<i32> = Vec::new();
    v.push(1);
    v.push(3);
    proof {
        assert(v@ =~= seq![1i32, 3i32]);
    }
    v
}

/// A vector holding a single value.
fn single(x: i32) -> (v: Vec<i32>)
    ensures
        v@ == seq![x],
{
    let mut v: Vec<i32> = Vec::new();
    v.push(x);
    proof {
        assert(v@ =~= seq![x]);
    }
    v
}

/// The price mapping of the map demonstration: the labels Open, High,
/// Low and Close, each bound to a single price, in that key order.
pub fn ohlc_map() -> (m: LabelMap)
    ensures
        m.wf(),
        m@ == Map::<Seq<char>, Seq<i32>>::empty().insert("Open"@, seq![20i32]).insert(
            "High"@,
            seq![25i32],
        ).insert("Low"@, seq![18i32]).insert("Close"@, seq![21i32]),
        m.key_seq() == seq!["Open"@, "High"@, "Low"@, "Close"@],
{
    proof {
        reveal_strlit("Open");
        reveal_strlit("High");
        reveal_strlit("Low");
        reveal_strlit("Close");
        assert("Open"@.len() == 4 && "High"@.len() == 4);
        assert("Low"@.len() == 3 && "Close"@.len() == 5);
        assert("Open"@ != "High"@) by {
            assert("Open"@[0] == 'O' && "High"@[0] == 'H');
        }
    }
    let mut m = LabelMap::new();
    m.insert("Open".to_owned(), single(20));
    m.insert("High".to_owned(), single(25));
    m.insert("Low".to_owned(), single(18));
    m.insert("Close".to_owned(), single(21));
    proof {
        assert(m.key_seq() =~= seq!["Open"@, "High"@, "Low"@, "Close"@]);
    }
    m
}

} // verus!
