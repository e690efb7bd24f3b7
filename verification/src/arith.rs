//! Small arithmetic helpers.

use vstd::prelude::*;

verus! {

/// The Fibonacci numbers: 0, 1, 1, 2, 3, 5, ...
pub open spec fn fib(n: nat) -> nat
    decreases n,
{
    if n == 0 {
        0
    } else if n <= 2 {
        1
    } else {
        fib((n - 1) as nat) + fib((n - 2) as nat)
    }
}

/// The largest index whose Fibonacci number fits in a `u32`.
pub const MAX_FIBONACCI_INDEX: u32 = 47;

/// The Fibonacci numbers never decrease.
pub proof fn lemma_fib_monotonic(i: nat, j: nat)
    requires
        i <= j,
    ensures
        fib(i) <= fib(j),
    decreases j,
{
    if i < j {
        lemma_fib_monotonic(i, (j - 1) as nat);
        if j >= 3 {
            assert(fib(j) == fib((j - 1) as nat) + fib((j - 2) as nat));
        }
    }
}

/// The Fibonacci number of index 47 is the last one that fits in a `u32`.
pub proof fn lemma_fib_limits()
    ensures
        fib(47) == 2971215073,
        fib(48) == 4807526976,
{
    assert(fib(0) == 0);
    assert(fib(1) == 1);
    assert(fib(2) == 1);
    assert(fib(3) == 2);
    assert(fib(4) == 3);
    assert(fib(5) == 5);
    assert(fib(6) == 8);
    assert(fib(7) == 13);
    assert(fib(8) == 21);
    assert(fib(9) == 34);
    assert(fib(10) == 55);
    assert(fib(11) == 89);
    assert(fib(12) == 144);
    assert(fib(13) == 233);
    assert(fib(14) == 377);
    assert(fib(15) == 610);
    assert(fib(16) == 987);
    assert(fib(17) == 1597);
    assert(fib(18) == 2584);
    assert(fib(19) == 4181);
    assert(fib(20) == 6765);
    assert(fib(21) == 10946);
    assert(fib(22) == 17711);
    assert(fib(23) == 28657);
    assert(fib(24) == 46368);
    assert(fib(25) == 75025);
    assert(fib(26) == 121393);
    assert(fib(27) == 196418);
    assert(fib(28) == 317811);
    assert(fib(29) == 514229);
    assert(fib(30) == 832040);
    assert(fib(31) == 1346269);
    assert(fib(32) == 2178309);
    assert(fib(33) == 3524578);
    assert(fib(34) == 5702887);
    assert(fib(35) == 9227465);
    assert(fib(36) == 14930352);
    assert(fib(37) == 24157817);
    assert(fib(38) == 39088169);
    assert(fib(39) == 63245986);
    assert(fib(40) == 102334155);
    assert(fib(41) == 165580141);
    assert(fib(42) == 267914296);
    assert(fib(43) == 433494437);
    assert(fib(44) == 701408733);
    assert(fib(45) == 1134903170);
    assert(fib(46) == 1836311903);
    assert(fib(47) == 2971215073);
    assert(fib(48) == 4807526976);
}

/// A Fibonacci number fits in a `u32` exactly when its index is at most
/// `MAX_FIBONACCI_INDEX`.
pub proof fn lemma_fib_fits(n: nat)
    ensures
        fib(n) <= u32::MAX <==> n <= MAX_FIBONACCI_INDEX,
{
    lemma_fib_limits();
    if n <= 47 {
        lemma_fib_monotonic(n, 47);
    } else {
        lemma_fib_monotonic(48, n);
    }
}

/// The Fibonacci number of index `num`.
pub fn fibonacci(num: u32) -> (result: u32)
    requires
        num <= MAX_FIBONACCI_INDEX,
    ensures
        result == fib(num as nat),
    decreases num,
{
    match num {
        0 => 0,
        1 | 2 => 1,
        x => {
            proof {
                lemma_fib_fits(x as nat);
                lemma_fib_monotonic((x - 1) as nat, x as nat);
            }
            fibonacci(x - 1) + fibonacci(x - 2)
        },
    }
}

/// `value` plus two.
pub fn add_two(value: i32) -> (result: i32)
    requires
        value + 2 <= i32::MAX,
    ensures
        result == value + 2,
{
    value + 2
}

/// One more than what `x` holds, if it holds anything.
pub fn plus_one(x: Option<i32>) -> (result: Option<i32>)
    requires
        x != Some(i32::MAX),
    ensures
        result == match x {
            Some(i) => Some((i + 1) as i32),
            None => None,
        },
{
    match x {
        Some(i) => Some(i + 1),
        None => None,
    }
}

/// The largest number of a list that is not empty.
pub fn largest_i32(list: &[i32]) -> (largest: &i32)
    requires
        list.len() > 0,
    ensures
        exists|i: int| 0 <= i < list.len() && list[i] == *largest,
        forall|i: int| 0 <= i < list.len() ==> list[i] <= *largest,
{
    let mut largest: &i32 = &list[0];
    let mut at: usize = 1;
    let ghost mut found: int = 0;
    while at < list.len()
        invariant
            1 <= at <= list.len(),
            0 <= found < at,
            list[found] == *largest,
            forall|i: int| 0 <= i < at ==> list[i] <= *largest,
        decreases list.len() - at,
    {
        let item = &list[at];
        if *item > *largest {
            largest = item;
            proof {
                found = at as int;
            }
        }
        at += 1;
    }
    largest
}

/// The largest character of a list that is not empty, by code point.
pub fn largest_char(list: &[char]) -> (largest: &char)
    requires
        list.len() > 0,
    ensures
        exists|i: int| 0 <= i < list.len() && list[i] == *largest,
        forall|i: int| 0 <= i < list.len() ==> list[i] as u32 <= *largest as u32,
{
    let mut largest: &char = &list[0];
    let mut at: usize = 1;
    let ghost mut found: int = 0;
    while at < list.len()
        invariant
            1 <= at <= list.len(),
            0 <= found < at,
            list[found] == *largest,
            forall|i: int| 0 <= i < at ==> list[i] as u32 <= *largest as u32,
        decreases list.len() - at,
    {
        let item = &list[at];
        let code: u32 = *item as u32;
        let best: u32 = *largest as u32;
        if code > best {
            largest = item;
            proof {
                found = at as int;
            }
        }
        at += 1;
    }
    largest
}

} // verus!
