use vstd::prelude::*;
use crate::text::{decimal, push_str, u64_to_decimal};
use crate::utils::gen_id::{random_at_most, thread_rng};

verus! {

/// How many bytes of `s` equal `b`.
pub open spec fn count_byte(s: Seq<u8>, b: int) -> nat
    decreases s.len(),
{
    if s.len() == 0 {
        0
    } else {
        count_byte(s.drop_last(), b) + if s.last() as int == b { 1nat } else { 0nat }
    }
}

proof fn lemma_count_byte_bound(s: Seq<u8>, b: int)
    ensures
        count_byte(s, b) <= s.len(),
    decreases s.len(),
{
    if s.len() > 0 {
        lemma_count_byte_bound(s.drop_last(), b);
    }
}

/// How many times each byte value occurs in `data`, by value.
pub fn byte_histogram(data: &[u8]) -> (r: Vec<u64>)
    ensures
        r@.len() == 256,
        forall|b: int| 0 <= b < 256 ==> #[trigger] r@[b] == count_byte(data@, b),
{
    let mut counts: Vec<u64> = Vec::new();
    for k in 0..256usize
        invariant
            counts@.len() == k,
            forall|b: int| 0 <= b < k ==> #[trigger] counts@[b] == 0,
    {
        counts.push(0);
    }
    let mut i: usize = 0;
    while i < data.len()
        invariant
            i <= data@.len(),
            counts@.len() == 256,
            forall|b: int| 0 <= b < 256 ==> #[trigger] counts@[b] == count_byte(data@.take(i as int), b),
        decreases data@.len() - i,
    {
        let byte = data[i];
        let idx = byte as usize;
        proof {
            assert(data@.take(i + 1).drop_last() == data@.take(i as int));
            lemma_count_byte_bound(data@.take(i as int), idx as int);
        }
        let c = counts[idx];
        counts.set(idx, c + 1);
        assert forall|b: int| 0 <= b < 256 implies #[trigger] counts@[b] == count_byte(data@.take(i + 1), b) by {
            assert(data@.take(i + 1).last() == byte);
        }
        i = i + 1;
    }
    assert(data@.take(data@.len() as int) == data@);
    counts
}

/// The counts of all byte values add up to the number of bytes.
pub proof fn lemma_histogram_total(s: Seq<u8>)
    ensures
        sum_counts(s, 256) == s.len(),
    decreases s.len(),
{
    if s.len() > 0 {
        lemma_histogram_total(s.drop_last());
        lemma_sum_counts_step(s, 256);
    } else {
        lemma_sum_counts_empty(s, 256);
    }
}

proof fn lemma_sum_counts_empty(s: Seq<u8>, n: int)
    requires
        s.len() == 0,
    ensures
        sum_counts(s, n) == 0,
    decreases n,
{
    if n > 0 {
        lemma_sum_counts_empty(s, n - 1);
    }
}

/// The counts of the byte values below `n` in `s`, added up.
pub open spec fn sum_counts(s: Seq<u8>, n: int) -> nat
    decreases n,
{
    if n <= 0 { 0 } else { sum_counts(s, n - 1) + count_byte(s, n - 1) }
}

proof fn lemma_sum_counts_step(s: Seq<u8>, n: int)
    requires
        s.len() > 0,
        0 <= n <= 256,
    ensures
        sum_counts(s, n) == sum_counts(s.drop_last(), n) + if (s.last() as int) < n { 1nat } else { 0nat },
    decreases n,
{
    if n > 0 {
        lemma_sum_counts_step(s, n - 1);
    }
}

/// The text of the error for a file smaller than a sample block.
pub open spec fn too_small_text(file_size: u64, block_size: u64) -> Seq<char> {
    "文件大小（"@ + decimal(file_size as nat) + "字节）小于块大小（"@ + decimal(block_size as nat) + "字节）"@
}

/// Where sample blocks of `block_size` bytes may start in a file of `file_size`
/// bytes: at most at `file_size - block_size`; a file smaller than a block is an
/// error with its reason.
pub fn sampling_window(file_size: u64, block_size: u64) -> (r: Result<u64, String>)
    ensures
        file_size < block_size ==> (r matches Err(m) && m@ == too_small_text(file_size, block_size)),
        file_size >= block_size ==> r == Ok::<u64, String>((file_size - block_size) as u64),
{
    if file_size < block_size {
        let mut m = String::new();
        push_str(&mut m, "文件大小（");
        let a = u64_to_decimal(file_size);
        push_str(&mut m, a.as_str());
        push_str(&mut m, "字节）小于块大小（");
        let b = u64_to_decimal(block_size);
        push_str(&mut m, b.as_str());
        push_str(&mut m, "字节）");
        return Err(m);
    }
    Ok(file_size - block_size)
}

/// Random start positions of `num_blocks` sample blocks, each at most `max_start`.
pub fn random_block_starts(max_start: u64, num_blocks: usize) -> (r: Vec<u64>)
    ensures
        r@.len() == num_blocks,
        forall|i: int| 0 <= i < num_blocks ==> #[trigger] r@[i] <= max_start,
{
    let mut rng = thread_rng();
    let mut starts: Vec<u64> = Vec::new();
    for k in 0..num_blocks
        invariant
            starts@.len() == k,
            forall|i: int| 0 <= i < k ==> #[trigger] starts@[i] <= max_start,
    {
        let s = random_at_most(&mut rng, max_start);
        starts.push(s);
    }
    starts
}

} // verus!
