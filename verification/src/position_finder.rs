//! Finding the line of an offset: the offsets of a text's line breaks, kept
//! in order.

use vstd::prelude::*;
use vstd::string::StringSliceAdditionalSpecFns;

verus! {

/// Whether a byte is a line break: a line feed or a carriage return.
pub open spec fn is_break(byte: u8) -> bool {
    byte == 10 || byte == 13
}

/// The offsets of the line breaks among the first `n` bytes, in order.
pub open spec fn breaks(bytes: Seq<u8>, n: int) -> Seq<int>
    decreases n,
{
    if n <= 0 {
        Seq::empty()
    } else if n <= bytes.len() && is_break(bytes[n - 1]) {
        breaks(bytes, n - 1).push(n - 1)
    } else {
        breaks(bytes, n - 1)
    }
}

/// How many of the first `n` offsets lie before `idx`.
pub open spec fn rank(offsets: Seq<int>, idx: int, n: int) -> int
    decreases n,
{
    if n <= 0 {
        0
    } else if n <= offsets.len() && offsets[n - 1] < idx {
        rank(offsets, idx, n - 1) + 1
    } else {
        rank(offsets, idx, n - 1)
    }
}

/// The number of the last line break before `idx`, counting from 0; 0 too
/// where no line break comes before `idx`.
pub open spec fn line_of(offsets: Seq<int>, idx: int) -> int {
    let before = rank(offsets, idx, offsets.len() as int);
    if before == 0 {
        0
    } else {
        before - 1
    }
}

/// Whether a sequence of offsets rises from one to the next.
pub open spec fn rising(offsets: Seq<int>) -> bool {
    forall|i: int, j: int| 0 <= i < j < offsets.len() ==> offsets[i] < offsets[j]
}

/// The offsets of line breaks rise, and each lies among the bytes counted.
pub proof fn lemma_breaks_rise(bytes: Seq<u8>, n: int)
    requires
        n <= bytes.len(),
    ensures
        rising(breaks(bytes, n)),
        forall|i: int| 0 <= i < breaks(bytes, n).len() ==> 0 <= #[trigger] breaks(bytes, n)[i] < n,
        breaks(bytes, n).len() <= n || n < 0,
    decreases n,
{
    if n > 0 {
        lemma_breaks_rise(bytes, n - 1);
    }
}

/// In a rising sequence, the offsets before `idx` are the first ones, and
/// `rank` counts them.
pub proof fn lemma_rank_of_split(offsets: Seq<int>, idx: int, k: int, n: int)
    requires
        rising(offsets),
        0 <= k <= n <= offsets.len(),
        forall|i: int| 0 <= i < k ==> offsets[i] < idx,
        forall|i: int| k <= i < offsets.len() ==> offsets[i] >= idx,
    ensures
        rank(offsets, idx, n) == k,
        rank(offsets, idx, k) == k,
    decreases n,
{
    lemma_rank_prefix(offsets, idx, k);
    if n > k {
        lemma_rank_of_split(offsets, idx, k, n - 1);
    }
}

/// Where the first `n` offsets all lie before `idx`, `rank` counts `n`.
pub proof fn lemma_rank_prefix(offsets: Seq<int>, idx: int, n: int)
    requires
        0 <= n <= offsets.len(),
        forall|i: int| 0 <= i < n ==> offsets[i] < idx,
    ensures
        rank(offsets, idx, n) == n,
    decreases n,
{
    if n > 0 {
        lemma_rank_prefix(offsets, idx, n - 1);
    }
}

/// Answers, for a text, on which line an offset lies.
#[derive(Debug)]
pub struct PositionFinder {
    /// The offset of each line break, in order.
    newline_to_offset: Vec<usize>,
}

impl View for PositionFinder {
    type V = Seq<int>;

    closed spec fn view(&self) -> Seq<int> {
        Seq::new(self.newline_to_offset@.len(), |i: int| self.newline_to_offset@[i] as int)
    }
}

impl PositionFinder {
    /// The offsets rise.
    #[verifier::type_invariant]
    pub closed spec fn wf(&self) -> bool {
        rising(self@)
    }

    /// Records where the line breaks of `text` are.
    pub fn from_text(text: &str) -> (finder: PositionFinder)
        ensures
            finder@ == breaks(text.spec_bytes(), text.spec_bytes().len() as int),
    {
        let bytes = text.as_bytes();
        let mut offsets: Vec<usize> = Vec::new();
        let mut i: usize = 0;
        while i < bytes.len()
            invariant
                i <= bytes@.len(),
                Seq::new(offsets@.len(), |k: int| offsets@[k] as int) == breaks(bytes@, i as int),
            decreases bytes.len() - i,
        {
            let ghost before = Seq::new(offsets@.len(), |k: int| offsets@[k] as int);
            if bytes[i] == 10 || bytes[i] == 13 {
                offsets.push(i);
                assert(Seq::new(offsets@.len(), |k: int| offsets@[k] as int) =~= before.push(
                    i as int,
                ));
            }
            i += 1;
        }
        proof {
            lemma_breaks_rise(bytes@, bytes@.len() as int);
        }
        PositionFinder { newline_to_offset: offsets }
    }

    /// How many line breaks lie before `idx`.
    pub fn breaks_before(&self, idx: u32) -> (r: usize)
        ensures
            r == rank(self@, idx as int, self@.len() as int),
            r <= self@.len(),
            forall|i: int| 0 <= i < r ==> self@[i] < idx,
            forall|i: int| r <= i < self@.len() ==> self@[i] >= idx,
    {
        proof {
            use_type_invariant(self);
        }
        let mut low: usize = 0;
        let mut high: usize = self.newline_to_offset.len();
        while low < high
            invariant
                rising(self@),
                low <= high <= self@.len(),
                self@.len() == self.newline_to_offset@.len(),
                forall|i: int| 0 <= i < low ==> self@[i] < idx,
                forall|i: int| high <= i < self@.len() ==> self@[i] >= idx,
            decreases high - low,
        {
            let mid = low + (high - low) / 2;
            if self.newline_to_offset[mid] < idx as usize {
                assert(self@[mid as int] < idx);
                low = mid + 1;
            } else {
                assert(self@[mid as int] >= idx);
                high = mid;
            }
        }
        proof {
            lemma_rank_of_split(self@, idx as int, low as int, self@.len() as int);
        }
        low
    }

    /// The number of the last line break before `idx`, counting from 0; 0
    /// too where no line break comes before `idx`.
    pub fn get_lineno(&self, idx: u32) -> (line: u32)
        ensures
            line == line_of(self@, idx as int),
    {
        let before = self.breaks_before(idx);
        if before == 0 {
            0
        } else {
            proof {
                use_type_invariant(self);
                lemma_offset_at_least_index(self@, before - 1);
            }
            (before - 1) as u32
        }
    }

    /// The offset of the line break with the given number, if the text has
    /// that many.
    pub fn offset_of_break(&self, line: u32) -> (r: Option<usize>)
        ensures
            r is Some <==> line < self@.len(),
            r matches Some(offset) ==> offset == self@[line as int],
    {
        if (line as usize) < self.newline_to_offset.len() {
            Some(self.newline_to_offset[line as usize])
        } else {
            None
        }
    }
}

/// In a rising sequence that starts at 0 or later, no offset is smaller
/// than its index.
pub proof fn lemma_offset_at_least_index(offsets: Seq<int>, i: int)
    requires
        rising(offsets),
        0 <= i < offsets.len(),
        offsets[0] >= 0,
    ensures
        offsets[i] >= i,
    decreases i,
{
    if i > 0 {
        lemma_offset_at_least_index(offsets, i - 1);
    }
}

} // verus!
