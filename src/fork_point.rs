//! The search for the block where the local view and the canonical chain
//! diverged, by comparing cached hashes with canonical ones.
use vstd::prelude::*;

use lru::LruCache;

use crate::cache::{cache_entries, cache_len, cached_hash, holds_entries, BlockMeta};
use crate::notification::sat_sub;

verus! {

/// The most cached blocks that one search compares, by default.
pub const MAX_FORK_CANDIDATES: usize = 64;

/// How many blocks the scan window reaches past the cache's size, so that
/// gaps between cached blocks are tolerated, by default.
pub const SCAN_GAP_ALLOWANCE: u64 = 64;

/// The bounds of one fork-point scan: at most `max_candidates` cached blocks
/// are compared, found within the cache's size plus `gap_allowance` blocks
/// below the suspected one.
#[derive(Clone, Copy, Debug, PartialEq, Eq, Structural)]
pub struct ScanLimits {
    pub max_candidates: usize,
    pub gap_allowance: u64,
}

impl ScanLimits {
    /// The default bounds: 64 candidates, and 64 blocks past the cache's size.
    pub fn standard() -> (r: ScanLimits)
        ensures
            r.max_candidates == MAX_FORK_CANDIDATES,
            r.gap_allowance == SCAN_GAP_ALLOWANCE,
    {
        ScanLimits { max_candidates: MAX_FORK_CANDIDATES, gap_allowance: SCAN_GAP_ALLOWANCE }
    }
}

/// A block as the canonical chain reports it.
#[derive(Clone, Copy, Debug, PartialEq, Eq)]
pub struct CanonicalBlock {
    pub number: u64,
    pub hash: [u8; 32],
}

/// What a fork-point search needs next.
#[derive(Debug, PartialEq, Eq)]
pub enum ForkSearch {
    /// The fork point is known without asking the canonical chain.
    Resolved(u64),
    /// The canonical blocks with these numbers are needed, newest first.
    NeedCanonical(Vec<u64>),
}

/// The size of the scan window for a cache of `len` entries.
pub open spec fn scan_window(len: nat, limits: ScanLimits) -> u64 {
    if len + limits.gap_allowance > u64::MAX {
        u64::MAX
    } else {
        (len + limits.gap_allowance) as u64
    }
}

/// The cached block numbers met walking down from `block` to `end`, after
/// `found`, until `max` of them are found.
pub open spec fn scan_from(
    entries: Map<u64, BlockMeta>,
    block: int,
    end: int,
    max: nat,
    found: Seq<u64>,
) -> Seq<u64>
    decreases block - end + 1,
{
    if block < end || found.len() >= max {
        found
    } else {
        let next = if entries.contains_key(block as u64) {
            found.push(block as u64)
        } else {
            found
        };
        scan_from(entries, block - 1, end, max, next)
    }
}

/// The first block of the scan, just below the suspected one.
pub open spec fn scan_start(reorged_block: u64) -> u64 {
    sat_sub(reorged_block, 1)
}

/// The last block of the scan.
pub open spec fn scan_end(entries: Map<u64, BlockMeta>, reorged_block: u64, limits: ScanLimits) -> u64 {
    sat_sub(scan_start(reorged_block), scan_window(entries.len(), limits))
}

/// The cached block numbers to compare with the canonical chain, newest
/// first, within `limits`.
pub open spec fn candidates_within(
    entries: Map<u64, BlockMeta>,
    reorged_block: u64,
    limits: ScanLimits,
) -> Seq<u64> {
    scan_from(
        entries,
        scan_start(reorged_block) as int,
        scan_end(entries, reorged_block, limits) as int,
        limits.max_candidates as nat,
        Seq::empty(),
    )
}

/// The candidates within the default limits.
pub open spec fn fork_candidates(entries: Map<u64, BlockMeta>, reorged_block: u64) -> Seq<u64> {
    candidates_within(
        entries,
        reorged_block,
        ScanLimits { max_candidates: MAX_FORK_CANDIDATES, gap_allowance: SCAN_GAP_ALLOWANCE },
    )
}

/// Whether the numbers go strictly down.
pub open spec fn strictly_descending(s: Seq<u64>) -> bool {
    forall|i: int, j: int| 0 <= i < j < s.len() ==> s[i] > s[j]
}

/// Whether block `m` is cached and the canonical answer holds a header for it
/// with the cached hash.
pub open spec fn agrees(entries: Map<u64, BlockMeta>, blocks: Seq<CanonicalBlock>, m: u64) -> bool {
    entries.contains_key(m) && exists|j: int|
        0 <= j < blocks.len() && #[trigger] blocks[j].number == m && blocks[j].hash@
            == entries[m].hash@
}

/// The first candidate, from index `i` on, that agrees with the answer.
pub open spec fn first_agreeing_from(
    entries: Map<u64, BlockMeta>,
    candidates: Seq<u64>,
    blocks: Seq<CanonicalBlock>,
    i: int,
) -> Option<u64>
    decreases candidates.len() - i,
{
    if i < 0 || i >= candidates.len() {
        None
    } else if agrees(entries, blocks, candidates[i]) {
        Some(candidates[i])
    } else {
        first_agreeing_from(entries, candidates, blocks, i + 1)
    }
}

/// Whether `m` is the greatest candidate that agrees with the answer.
pub open spec fn greatest_agreeing(
    entries: Map<u64, BlockMeta>,
    candidates: Seq<u64>,
    blocks: Seq<CanonicalBlock>,
    m: u64,
) -> bool {
    &&& candidates.contains(m)
    &&& agrees(entries, blocks, m)
    &&& forall|c: u64| #[trigger]
        candidates.contains(c) && agrees(entries, blocks, c) ==> c <= m
}

/// The fork point once the canonical chain has answered, or failed to
/// (`None`): with no candidate, the suspected block itself; else one past
/// the first candidate, in the candidates' order, that the answer confirms,
/// or the oldest candidate where none is confirmed; on failure, the block
/// below the suspected one.
pub open spec fn fork_point_after_query(
    entries: Map<u64, BlockMeta>,
    reorged_block: u64,
    candidates: Seq<u64>,
    canonical: Option<Seq<CanonicalBlock>>,
) -> u64 {
    if candidates.len() == 0 {
        reorged_block
    } else {
        match canonical {
            None => sat_sub(reorged_block, 1),
            Some(blocks) => match first_agreeing_from(entries, candidates, blocks, 0) {
                Some(n) => (n + 1) as u64,
                None => candidates.last(),
            },
        }
    }
}

proof fn lemma_scan_shape(
    entries: Map<u64, BlockMeta>,
    block: int,
    end: int,
    max: nat,
    found: Seq<u64>,
)
    requires
        0 <= end,
        block <= u64::MAX,
        strictly_descending(found),
        forall|i: int| 0 <= i < found.len() ==> found[i] > block,
    ensures
        strictly_descending(scan_from(entries, block, end, max, found)),
        forall|i: int|
            0 <= i < found.len() ==> scan_from(entries, block, end, max, found)[i] == found[i],
        scan_from(entries, block, end, max, found).len() >= found.len(),
        forall|i: int|
            found.len() <= i < scan_from(entries, block, end, max, found).len() ==> scan_from(
                entries,
                block,
                end,
                max,
                found,
            )[i] <= block,
    decreases block - end + 1,
{
    if !(block < end || found.len() >= max) {
        let next = if entries.contains_key(block as u64) {
            found.push(block as u64)
        } else {
            found
        };
        let res = scan_from(entries, block - 1, end, max, next);
        assert(scan_from(entries, block, end, max, found) == res);
        assert(forall|i: int| 0 <= i < next.len() ==> next[i] > block - 1);
        lemma_scan_shape(entries, block - 1, end, max, next);
        assert forall|i: int| 0 <= i < found.len() implies res[i] == found[i] by {
            assert(next[i] == found[i]);
        }
        assert forall|i: int| found.len() <= i < res.len() implies res[i] <= block by {
            if i < next.len() {
                assert(res[i] == next[i]);
            }
        }
    } else {
        assert(scan_from(entries, block, end, max, found) == found);
    }
}

/// The candidates go strictly down, and each lies at or below the first
/// block of the scan, so one past it is a block number.
pub proof fn lemma_candidates_shape(entries: Map<u64, BlockMeta>, reorged_block: u64, limits: ScanLimits)
    ensures
        strictly_descending(candidates_within(entries, reorged_block, limits)),
        forall|i: int|
            0 <= i < candidates_within(entries, reorged_block, limits).len() ==> candidates_within(
                entries,
                reorged_block,
                limits,
            )[i] <= scan_start(reorged_block),
{
    lemma_scan_shape(
        entries,
        scan_start(reorged_block) as int,
        scan_end(entries, reorged_block, limits) as int,
        limits.max_candidates as nat,
        Seq::empty(),
    );
}

/// Whether two block hashes are the same.
pub fn same_hash(a: &[u8; 32], b: &[u8; 32]) -> (r: bool)
    ensures
        r == (a@ == b@),
{
    let mut i: usize = 0;
    while i < 32
        invariant
            i <= 32,
            forall|j: int| 0 <= j < i ==> a@[j] == b@[j],
        decreases 32 - i,
    {
        if a[i] != b[i] {
            return false;
        }
        i = i + 1;
    }
    assert(a@ =~= b@);
    true
}

/// Whether the answer holds a header for block `m` with hash `h`.
fn answer_holds(blocks: &Vec<CanonicalBlock>, m: u64, h: &[u8; 32]) -> (r: bool)
    ensures
        r == exists|j: int|
            0 <= j < blocks@.len() && #[trigger] blocks@[j].number == m && blocks@[j].hash@ == h@,
{
    let mut j: usize = 0;
    while j < blocks.len()
        invariant
            j <= blocks@.len(),
            forall|k: int| 0 <= k < j ==> !(blocks@[k].number == m && blocks@[k].hash@ == h@),
        decreases blocks.len() - j,
    {
        if blocks[j].number == m && same_hash(&blocks[j].hash, h) {
            return true;
        }
        j = j + 1;
    }
    false
}

/// The cached block numbers to compare with the canonical chain: walking
/// down from just below `reorged_block`, over a window of the cache's size
/// plus `limits.gap_allowance`, at most `limits.max_candidates` of them,
/// newest first.
pub fn fork_point_candidates_within(
    block_cache: &LruCache<u64, BlockMeta>,
    reorged_block: u64,
    limits: ScanLimits,
) -> (r: Vec<u64>)
    ensures
        r@ == candidates_within(cache_entries(*block_cache), reorged_block, limits),
        strictly_descending(r@),
        forall|i: int| 0 <= i < r@.len() ==> r@[i] < u64::MAX,
{
    let ghost entries = cache_entries(*block_cache);
    proof {
        lemma_candidates_shape(entries, reorged_block, limits);
    }
    let len = cache_len(block_cache) as u64;
    let max_scan = len.saturating_add(limits.gap_allowance);
    assert(max_scan == scan_window(entries.len(), limits));
    let start = reorged_block.saturating_sub(1);
    let end = start.saturating_sub(max_scan);
    let mut found: Vec<u64> = Vec::new();
    if limits.max_candidates == 0 {
        return found;
    }
    let mut block: u64 = start;
    loop
        invariant_except_break
            found@.len() < limits.max_candidates,
            candidates_within(entries, reorged_block, limits) == scan_from(
                entries,
                block as int,
                end as int,
                limits.max_candidates as nat,
                found@,
            ),
        invariant
            end <= block <= start,
            entries == cache_entries(*block_cache),
            end == scan_end(entries, reorged_block, limits),
        ensures
            found@ == candidates_within(entries, reorged_block, limits),
        decreases block,
    {
        let ghost before = found@;
        if cached_hash(block_cache, block).is_some() {
            found.push(block);
        }
        assert(scan_from(entries, block as int, end as int, limits.max_candidates as nat, before)
            == scan_from(entries, block - 1, end as int, limits.max_candidates as nat, found@));
        if found.len() >= limits.max_candidates || block == end {
            assert(scan_from(entries, block - 1, end as int, limits.max_candidates as nat, found@)
                == found@);
            break;
        }
        block = block - 1;
    }
    found
}

/// The candidates within the default limits.
pub fn fork_point_candidates(block_cache: &LruCache<u64, BlockMeta>, reorged_block: u64) -> (r:
    Vec<u64>)
    ensures
        r@ == fork_candidates(cache_entries(*block_cache), reorged_block),
        strictly_descending(r@),
        forall|i: int| 0 <= i < r@.len() ==> r@[i] < u64::MAX,
{
    fork_point_candidates_within(block_cache, reorged_block, ScanLimits::standard())
}

/// Starts a fork-point search from the suspected block within `limits`:
/// with no cached block to compare, the suspected block itself is the
/// answer; otherwise the canonical chain is to be asked for the candidates.
pub fn begin_fork_search_within(
    block_cache: &LruCache<u64, BlockMeta>,
    reorged_block: u64,
    limits: ScanLimits,
) -> (r: ForkSearch)
    ensures
        candidates_within(cache_entries(*block_cache), reorged_block, limits).len() == 0 ==> r
            == ForkSearch::Resolved(reorged_block),
        candidates_within(cache_entries(*block_cache), reorged_block, limits).len() > 0 ==> (r matches
            ForkSearch::NeedCanonical(c) && c@ == candidates_within(
            cache_entries(*block_cache),
            reorged_block,
            limits,
        ) && strictly_descending(c@) && forall|i: int| 0 <= i < c@.len() ==> c@[i] < u64::MAX),
{
    let candidates = fork_point_candidates_within(block_cache, reorged_block, limits);
    if candidates.len() == 0 {
        ForkSearch::Resolved(reorged_block)
    } else {
        ForkSearch::NeedCanonical(candidates)
    }
}

/// Starts a fork-point search within the default limits.
pub fn begin_fork_search(block_cache: &LruCache<u64, BlockMeta>, reorged_block: u64) -> (r:
    ForkSearch)
    ensures
        fork_candidates(cache_entries(*block_cache), reorged_block).len() == 0 ==> r
            == ForkSearch::Resolved(reorged_block),
        fork_candidates(cache_entries(*block_cache), reorged_block).len() > 0 ==> (r matches
            ForkSearch::NeedCanonical(c) && c@ == fork_candidates(
            cache_entries(*block_cache),
            reorged_block,
        ) && strictly_descending(c@) && forall|i: int| 0 <= i < c@.len() ==> c@[i] < u64::MAX),
{
    begin_fork_search_within(block_cache, reorged_block, ScanLimits::standard())
}

/// The fork point below `reorged_block`, given the candidates that a search
/// named, newest first, and the canonical chain's answer for them, or `None`
/// where that query failed. With no candidate the suspected block is kept.
/// The candidates are taken in order, and each is looked up in the answer:
/// the first whose canonical hash equals the cached one, which for
/// candidates that go down is the newest such block, puts the fork point
/// one past it. Where none does, the oldest candidate is taken; where the
/// query failed, the block below the suspected one.
pub fn find_fork_point(
    block_cache: &LruCache<u64, BlockMeta>,
    reorged_block: u64,
    candidates: &Vec<u64>,
    canonical_blocks: Option<&Vec<CanonicalBlock>>,
) -> (r: u64)
    requires
        forall|i: int| 0 <= i < candidates@.len() ==> candidates@[i] < u64::MAX,
    ensures
        r == fork_point_after_query(
            cache_entries(*block_cache),
            reorged_block,
            candidates@,
            match canonical_blocks {
                Some(b) => Some(b@),
                None => None,
            },
        ),
        canonical_blocks matches Some(b) ==> (strictly_descending(candidates@) ==> forall|m: u64|
            #[trigger] greatest_agreeing(cache_entries(*block_cache), candidates@, b@, m) ==> r
                == m + 1),
{
    let ghost entries = cache_entries(*block_cache);
    if candidates.len() == 0 {
        return reorged_block;
    }
    match canonical_blocks {
        None => reorged_block.saturating_sub(1),
        Some(blocks) => {
            proof {
                assert forall|m: u64|
                    strictly_descending(candidates@) && #[trigger] greatest_agreeing(
                        entries,
                        candidates@,
                        blocks@,
                        m,
                    ) implies first_agreeing_from(entries, candidates@, blocks@, 0) == Some(m) by {
                    let k = choose|k: int| 0 <= k < candidates@.len() && candidates@[k] == m;
                    lemma_first_agreeing_at(entries, candidates@, blocks@, 0, k);
                }
            }
            let mut i: usize = 0;
            while i < candidates.len()
                invariant
                    i <= candidates@.len(),
                    canonical_blocks == Some(blocks),
                    forall|m: u64|
                        strictly_descending(candidates@) && #[trigger] greatest_agreeing(
                            entries,
                            candidates@,
                            blocks@,
                            m,
                        ) ==> first_agreeing_from(entries, candidates@, blocks@, 0) == Some(m),
                    entries == cache_entries(*block_cache),
                    forall|j: int| 0 <= j < candidates@.len() ==> candidates@[j] < u64::MAX,
                    first_agreeing_from(entries, candidates@, blocks@, 0) == first_agreeing_from(
                        entries,
                        candidates@,
                        blocks@,
                        i as int,
                    ),
                decreases candidates.len() - i,
            {
                let m = candidates[i];
                assert(first_agreeing_from(entries, candidates@, blocks@, i as int) == if agrees(
                    entries,
                    blocks@,
                    m,
                ) {
                    Some(m)
                } else {
                    first_agreeing_from(entries, candidates@, blocks@, i + 1)
                });
                match cached_hash(block_cache, m) {
                    Some(h) => {
                        if answer_holds(blocks, m, &h) {
                            return m + 1;
                        }
                    },
                    None => {},
                }
                i = i + 1;
            }
            candidates[candidates.len() - 1]
        },
    }
}

proof fn lemma_scan_without_entries(
    entries: Map<u64, BlockMeta>,
    block: int,
    end: int,
    max: nat,
    found: Seq<u64>,
)
    requires
        entries.dom() =~= Set::empty(),
    ensures
        scan_from(entries, block, end, max, found) == found,
    decreases block - end + 1,
{
    if !(block < end || found.len() >= max) {
        lemma_scan_without_entries(entries, block - 1, end, max, found);
    }
}

/// A cache whose length is zero holds nothing to compare, and the search
/// answers with the suspected block itself, whatever the canonical chain
/// says.
pub proof fn lemma_empty_cache_keeps_block(
    entries: Map<u64, BlockMeta>,
    reorged_block: u64,
    limits: ScanLimits,
    canonical: Option<Seq<CanonicalBlock>>,
)
    requires
        holds_entries(entries, 0),
    ensures
        candidates_within(entries, reorged_block, limits).len() == 0,
        fork_point_after_query(
            entries,
            reorged_block,
            candidates_within(entries, reorged_block, limits),
            canonical,
        ) == reorged_block,
{
    entries.dom().lemma_len0_is_empty();
    lemma_scan_without_entries(
        entries,
        scan_start(reorged_block) as int,
        scan_end(entries, reorged_block, limits) as int,
        limits.max_candidates as nat,
        Seq::empty(),
    );
}

proof fn lemma_first_agreeing_at(
    entries: Map<u64, BlockMeta>,
    candidates: Seq<u64>,
    blocks: Seq<CanonicalBlock>,
    i: int,
    k: int,
)
    requires
        0 <= i <= k < candidates.len(),
        strictly_descending(candidates),
        greatest_agreeing(entries, candidates, blocks, candidates[k]),
    ensures
        first_agreeing_from(entries, candidates, blocks, i) == Some(candidates[k]),
    decreases k - i,
{
    if i < k {
        assert(candidates.contains(candidates[i]));
        lemma_first_agreeing_at(entries, candidates, blocks, i + 1, k);
    }
}

proof fn lemma_none_agreeing(
    entries: Map<u64, BlockMeta>,
    candidates: Seq<u64>,
    blocks: Seq<CanonicalBlock>,
    i: int,
)
    requires
        0 <= i,
        forall|j: int| i <= j < candidates.len() ==> !agrees(entries, blocks, #[trigger] candidates[j]),
    ensures
        first_agreeing_from(entries, candidates, blocks, i) == None::<u64>,
    decreases candidates.len() - i,
{
    if i < candidates.len() {
        lemma_none_agreeing(entries, candidates, blocks, i + 1);
    }
}

/// For candidates that go down, the newest candidate whose hash the answer
/// confirms sets the fork point, one past it, whatever order the answer
/// lists its headers in.
pub proof fn lemma_newest_match_wins(
    entries: Map<u64, BlockMeta>,
    reorged_block: u64,
    candidates: Seq<u64>,
    blocks: Seq<CanonicalBlock>,
    m: u64,
)
    requires
        strictly_descending(candidates),
        m < u64::MAX,
        greatest_agreeing(entries, candidates, blocks, m),
    ensures
        fork_point_after_query(entries, reorged_block, candidates, Some(blocks)) == m + 1,
{
    let k = choose|k: int| 0 <= k < candidates.len() && candidates[k] == m;
    lemma_first_agreeing_at(entries, candidates, blocks, 0, k);
}

/// Where the answer confirms no candidate, the fork point is the oldest
/// candidate scanned.
pub proof fn lemma_no_match_takes_oldest(
    entries: Map<u64, BlockMeta>,
    reorged_block: u64,
    candidates: Seq<u64>,
    blocks: Seq<CanonicalBlock>,
)
    requires
        candidates.len() > 0,
        forall|j: int| 0 <= j < candidates.len() ==> !agrees(entries, blocks, #[trigger] candidates[j]),
    ensures
        fork_point_after_query(entries, reorged_block, candidates, Some(blocks))
            == candidates[candidates.len() - 1],
{
    lemma_none_agreeing(entries, candidates, blocks, 0);
}

/// Where the canonical chain could not be asked, the fork point is the block
/// below the suspected one (or zero).
pub proof fn lemma_failed_query_steps_back(
    entries: Map<u64, BlockMeta>,
    reorged_block: u64,
    candidates: Seq<u64>,
)
    requires
        candidates.len() > 0,
    ensures
        fork_point_after_query(entries, reorged_block, candidates, None) as int == if reorged_block
            > 0 {
            reorged_block - 1
        } else {
            0
        },
{
}

} // verus!
