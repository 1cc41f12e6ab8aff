use crate::geometry::Point;
use vstd::prelude::*;

verus! {

/// Two distinct indices of `s` hold the same cell.
pub open spec fn has_repeat(s: Seq<Point>) -> bool {
    exists|i: int, j: int| 0 <= i < s.len() && 0 <= j < s.len() && i != j && s[i] == s[j]
}

/// Tells whether any two segments of the body occupy the same cell, the head
/// included.
pub fn collides_with_itself(points: &Vec<Point>) -> (r: bool)
    ensures
        r == has_repeat(points@),
{
    let n: usize = points.len();
    let mut i: usize = 0;
    while i < n
        invariant
            n == points@.len(),
            i <= n,
            forall|a: int, b: int|
                0 <= a < i && 0 <= b < n && a != b ==> points@[a] != points@[b],
        decreases n - i,
    {
        let mut j: usize = 0;
        while j < n
            invariant
                n == points@.len(),
                i < n,
                j <= n,
                forall|a: int, b: int|
                    0 <= a < i && 0 <= b < n && a != b ==> points@[a] != points@[b],
                forall|b: int| 0 <= b < j && b != i ==> points@[i as int] != points@[b],
            decreases n - j,
        {
            if i != j && points[i].x == points[j].x && points[i].y == points[j].y {
                assert(points@[i as int] == points@[j as int]);
                return true;
            }
            j += 1;
        }
        i += 1;
    }
    false
}

} // verus!
