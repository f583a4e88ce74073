//! The three arithmetic operations and the mathematical model they are held to.

use vstd::prelude::*;

verus! {

/// Whether the mathematical integer `v` can be held in an `i32`.
pub open spec fn fits_i32(v: int) -> bool {
    i32::MIN <= v <= i32::MAX
}

/// The sum of the first `count` entries of `numbers`, taken in order.
pub open spec fn partial_sum(numbers: Seq<i32>, count: nat) -> int
    decreases count,
{
    if count == 0 {
        0
    } else {
        partial_sum(numbers, (count - 1) as nat) + numbers[count - 1]
    }
}

/// The sum of all entries of `numbers`, as a mathematical integer.
pub open spec fn sum_of(numbers: Seq<i32>) -> int {
    partial_sum(numbers, numbers.len())
}

/// A sum of `count` entries lies between `count` times the least and `count`
/// times the greatest `i32`.
pub proof fn partial_sum_bounds(numbers: Seq<i32>, count: nat)
    requires
        count <= numbers.len(),
    ensures
        count * i32::MIN <= partial_sum(numbers, count) <= count * i32::MAX,
    decreases count,
{
    if count > 0 {
        partial_sum_bounds(numbers, (count - 1) as nat);
    }
}

/// Partial sums depend only on the entries they cover: two sequences that
/// agree on their first `count` entries have the same sum over them.
pub proof fn partial_sum_of_common_prefix(left: Seq<i32>, right: Seq<i32>, count: nat)
    requires
        count <= left.len(),
        count <= right.len(),
        forall|i: int| 0 <= i < count ==> left[i] == right[i],
    ensures
        partial_sum(left, count) == partial_sum(right, count),
    decreases count,
{
    if count > 0 {
        partial_sum_of_common_prefix(left, right, (count - 1) as nat);
    }
}

/// The empty sequence sums to zero.
pub proof fn sum_of_empty()
    ensures
        sum_of(Seq::<i32>::empty()) == 0,
{
}

/// Appending one number to a sequence adds that number to its sum.
pub proof fn sum_of_push(numbers: Seq<i32>, last: i32)
    ensures
        sum_of(numbers.push(last)) == sum_of(numbers) + last,
{
    partial_sum_of_common_prefix(numbers.push(last), numbers, numbers.len());
}

/// The sum of a concatenation is the sum of the sums of its two parts.
pub proof fn sum_of_concat(left: Seq<i32>, right: Seq<i32>)
    ensures
        sum_of(left + right) == sum_of(left) + sum_of(right),
    decreases right.len(),
{
    if right.len() == 0 {
        assert(left + right =~= left);
    } else {
        let front = right.drop_last();
        assert(left + right =~= (left + front).push(right.last()));
        assert(right =~= front.push(right.last()));
        sum_of_concat(left, front);
        sum_of_push(left + front, right.last());
        sum_of_push(front, right.last());
    }
}

/// The sum of `a` and `b`.
///
/// The sum has to be representable; within that range the result is the
/// mathematical sum.
pub fn add(a: i32, b: i32) -> (sum: i32)
    requires
        fits_i32(a + b),
    ensures
        sum == a + b,
{
    a + b
}

/// The total of `numbers`: a running total that starts at zero and takes in
/// each entry in order. The empty slice totals zero.
///
/// Only the total itself has to be representable. The running total is kept
/// in 128 bits, which no slice of `i32` can overflow, so a prefix whose sum
/// leaves the `i32` range is no obstacle.
pub fn calculate_total(numbers: &[i32]) -> (total: i32)
    requires
        fits_i32(sum_of(numbers@)),
    ensures
        total == sum_of(numbers@),
{
    let mut running: i128 = 0;
    let mut index: usize = 0;
    while index < numbers.len()
        invariant
            index <= numbers.len(),
            running == partial_sum(numbers@, index as nat),
        decreases numbers.len() - index,
    {
        proof {
            partial_sum_bounds(numbers@, index as nat);
        }
        running = running + numbers[index] as i128;
        index = index + 1;
    }
    running as i32
}

/// Twice `value`, plus ten.
///
/// Only the result has to be representable: the doubling is done in 64 bits,
/// so a `value` whose double alone leaves the `i32` range is still accepted
/// when adding ten brings the result back into it.
pub fn process_data(value: i32) -> (result: i32)
    requires
        fits_i32(2 * value + 10),
    ensures
        result == 2 * value + 10,
{
    let multiplied: i64 = value as i64 * 2;
    let shifted: i64 = multiplied + 10;
    shifted as i32
}

} // verus!
