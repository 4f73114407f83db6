//! A fixed-width set of bits, one per slot, kept in bytes.
use vstd::prelude::*;

verus! {

/// Slot `i` is set and no slot below it is.
pub open spec fn is_lowest_set(s: Seq<bool>, i: int) -> bool {
    &&& 0 <= i < s.len()
    &&& s[i]
    &&& forall|j: int| 0 <= j < i ==> !s[j]
}

/// The lowest set slot of `s`, if any slot is set.
pub open spec fn lowest_set(s: Seq<bool>) -> Option<usize> {
    if exists|i: int| 0 <= i < s.len() && s[i] {
        Some((choose|i: int| is_lowest_set(s, i)) as usize)
    } else {
        None
    }
}

/// The lowest set slot is the one that `lowest_set` names.
pub proof fn lemma_lowest_set(s: Seq<bool>, i: int)
    requires
        is_lowest_set(s, i),
        s.len() <= usize::MAX + 1,
    ensures
        lowest_set(s) == Some(i as usize),
{
    let c = choose|k: int| is_lowest_set(s, k);
    assert(is_lowest_set(s, c));
    if c < i {
        assert(!s[c]);
    } else if i < c {
        assert(!s[i]);
    }
}

/// Where some slot is set, a lowest set slot exists.
pub proof fn lemma_lowest_exists(s: Seq<bool>, i: int)
    requires
        0 <= i < s.len(),
        s[i],
    ensures
        exists|k: int| is_lowest_set(s, k),
    decreases i,
{
    if exists|j: int| 0 <= j < i && s[j] {
        let j = choose|j: int| 0 <= j < i && s[j];
        lemma_lowest_exists(s, j);
    } else {
        assert(is_lowest_set(s, i));
    }
}

/// A slot that `lowest_set` names is the lowest set slot.
pub proof fn lemma_lowest_set_is_lowest(s: Seq<bool>)
    requires
        s.len() <= usize::MAX + 1,
    ensures
        lowest_set(s) is Some ==> is_lowest_set(s, lowest_set(s)->0 as int),
{
    if exists|i: int| 0 <= i < s.len() && s[i] {
        let i = choose|i: int| 0 <= i < s.len() && s[i];
        lemma_lowest_exists(s, i);
        let k = choose|k: int| is_lowest_set(s, k);
        lemma_lowest_set(s, k);
    }
}

/// With no slot set there is no lowest one.
pub proof fn lemma_none_set(s: Seq<bool>)
    requires
        forall|j: int| 0 <= j < s.len() ==> !s[j],
    ensures
        lowest_set(s) == None::<usize>,
{
}

/// Whether bit `k` (counted from the least significant) of `b` is set.
pub open spec fn u8_bit(b: u8, k: u8) -> bool {
    b & (1u8 << k) != 0
}

proof fn lemma_bit_set(b: u8, k: u8, j: u8)
    requires
        k < 8,
        j < 8,
    ensures
        u8_bit(b | (1u8 << k), j) == (j == k || u8_bit(b, j)),
{
    assert((b | (1u8 << k)) & (1u8 << j) != 0 <==> (j == k || b & (1u8 << j) != 0)) by (bit_vector)
        requires
            k < 8,
            j < 8,
    ;
}

proof fn lemma_bit_clear(b: u8, k: u8, j: u8)
    requires
        k < 8,
        j < 8,
    ensures
        u8_bit(b & !(1u8 << k), j) == (j != k && u8_bit(b, j)),
{
    assert((b & !(1u8 << k)) & (1u8 << j) != 0 <==> (j != k && b & (1u8 << j) != 0)) by (bit_vector)
        requires
            k < 8,
            j < 8,
    ;
}

proof fn lemma_zero_byte(b: u8, j: u8)
    requires
        j < 8,
        b == 0,
    ensures
        !u8_bit(b, j),
{
    assert(b == 0 ==> b & (1u8 << j) == 0) by (bit_vector)
        requires
            j < 8,
    ;
}

/// Bit `i` of a byte sequence, byte `i / 8`, bit `i % 8` within it.
pub open spec fn bit_at(data: Seq<u8>, i: int) -> bool {
    u8_bit(data[i / 8], (i % 8) as u8)
}

/// Replacing the byte that holds bit `index` by one that differs from it in
/// that bit alone changes that bit of the sequence and no other.
proof fn lemma_update_bit(data: Seq<u8>, index: int, nb: u8, v: bool)
    requires
        0 <= index < data.len() * 8,
        forall|j: u8|
            j < 8 ==> #[trigger] u8_bit(nb, j) == (if j == (index % 8) as u8 {
                v
            } else {
                u8_bit(data[index / 8], j)
            }),
    ensures
        forall|i: int|
            0 <= i < data.len() * 8 ==> #[trigger] bit_at(data.update(index / 8, nb), i) == (if i
                == index {
                v
            } else {
                bit_at(data, i)
            }),
{
    assert forall|i: int| 0 <= i < data.len() * 8 implies #[trigger] bit_at(
        data.update(index / 8, nb),
        i,
    ) == (if i == index {
        v
    } else {
        bit_at(data, i)
    }) by {
        if i / 8 == index / 8 {
            assert(u8_bit(nb, (i % 8) as u8) == (if (i % 8) as u8 == (index % 8) as u8 {
                v
            } else {
                u8_bit(data[index / 8], (i % 8) as u8)
            }));
        }
    }
}

/// A set of `size` slots, numbered from zero, each either set or clear.
pub struct Bitmap {
    data: Vec<u8>,
    size: usize,
}

impl View for Bitmap {
    type V = Seq<bool>;

    /// Slot `i` is set exactly when its bit is set.
    closed spec fn view(&self) -> Seq<bool> {
        Seq::new(self.size as nat, |i: int| bit_at(self.data@, i))
    }
}

impl Bitmap {
    /// One byte per eight slots, and the bits past the last slot stay clear.
    pub closed spec fn wf(&self) -> bool {
        &&& self.data@.len() * 8 >= self.size
        &&& self.data@.len() * 8 < self.size + 8
        &&& forall|i: int|
            #![trigger bit_at(self.data@, i)]
            self.size <= i < self.data@.len() * 8 ==> !bit_at(self.data@, i)
    }

    /// A map of `size` slots, all clear.
    pub fn new(size: usize) -> (r: Self)
        requires
            size <= usize::MAX - 7,
        ensures
            r.wf(),
            r@ == Seq::new(size as nat, |i: int| false),
    {
        let n: usize = (size + 7) / 8;
        let mut data: Vec<u8> = Vec::with_capacity(n);
        let mut k: usize = 0;
        while k < n
            invariant
                k <= n,
                n == (size + 7) / 8,
                data@.len() == k,
                forall|j: int| 0 <= j < k ==> data@[j] == 0u8,
            decreases n - k,
        {
            data.push(0u8);
            k = k + 1;
        }
        let r = Bitmap { data, size };
        assert forall|i: int| 0 <= i < data@.len() * 8 implies !#[trigger] bit_at(data@, i) by {
            lemma_zero_byte(data@[i / 8], (i % 8) as u8);
        }
        assert(r@ =~= Seq::new(size as nat, |i: int| false));
        r
    }

    /// Writes `v` into slot `index`.
    fn put(&mut self, index: usize, v: bool)
        requires
            old(self).wf(),
            index < old(self)@.len(),
        ensures
            final(self).wf(),
            final(self)@ == old(self)@.update(index as int, v),
    {
        let byte_index: usize = index / 8;
        let bit_index: u8 = (index % 8) as u8;
        let b: u8 = self.data[byte_index];
        let nb: u8 = if v {
            b | (1u8 << bit_index)
        } else {
            b & !(1u8 << bit_index)
        };
        proof {
            assert forall|j: u8| j < 8 implies #[trigger] u8_bit(nb, j) == (if j == bit_index {
                v
            } else {
                u8_bit(b, j)
            }) by {
                if v {
                    lemma_bit_set(b, bit_index, j);
                } else {
                    lemma_bit_clear(b, bit_index, j);
                }
            }
            lemma_update_bit(self.data@, index as int, nb, v);
        }
        let ghost before = self.data@;
        self.data.set(byte_index, nb);
        assert(self.data@ == before.update(byte_index as int, nb));
        assert(self@ =~= old(self)@.update(index as int, v));
    }

    /// Marks slot `index` as set.
    pub fn set(&mut self, index: usize)
        requires
            old(self).wf(),
            index < old(self)@.len(),
        ensures
            final(self).wf(),
            final(self)@ == old(self)@.update(index as int, true),
    {
        self.put(index, true);
    }

    /// Marks slot `index` as clear.
    pub fn clear(&mut self, index: usize)
        requires
            old(self).wf(),
            index < old(self)@.len(),
        ensures
            final(self).wf(),
            final(self)@ == old(self)@.update(index as int, false),
    {
        self.put(index, false);
    }

    /// Clears every slot in `start..end` and leaves the others as they were.
    pub fn clear_range(&mut self, start: usize, end: usize)
        requires
            old(self).wf(),
            start <= end <= old(self)@.len(),
        ensures
            final(self).wf(),
            final(self)@ == Seq::new(
                old(self)@.len(),
                |i: int|
                    if start <= i < end {
                        false
                    } else {
                        old(self)@[i]
                    },
            ),
    {
        let mut index: usize = start;
        while index < end
            invariant
                self.wf(),
                start <= index <= end <= old(self)@.len(),
                self@.len() == old(self)@.len(),
                forall|i: int|
                    0 <= i < self@.len() ==> #[trigger] self@[i] == (if start <= i < index {
                        false
                    } else {
                        old(self)@[i]
                    }),
            decreases end - index,
        {
            self.put(index, false);
            index = index + 1;
        }
        assert(self@ =~= Seq::new(
            old(self)@.len(),
            |i: int|
                if start <= i < end {
                    false
                } else {
                    old(self)@[i]
                },
        ));
    }

    /// Whether slot `index` is set.
    pub fn test(&self, index: usize) -> (r: bool)
        requires
            self.wf(),
            index < self@.len(),
        ensures
            r == self@[index as int],
    {
        let byte_index: usize = index / 8;
        let bit_index: u8 = (index % 8) as u8;
        self.data[byte_index] & (1u8 << bit_index) != 0
    }

    /// Reads slot `index` and clears it in one step: the slot was set exactly
    /// when `true` comes back.
    pub fn test_and_clear(&mut self, index: usize) -> (r: bool)
        requires
            old(self).wf(),
            index < old(self)@.len(),
        ensures
            final(self).wf(),
            r == old(self)@[index as int],
            final(self)@ == old(self)@.update(index as int, false),
    {
        let r = self.test(index);
        self.put(index, false);
        r
    }

    /// The number of slots.
    pub fn size(&self) -> (r: usize)
        requires
            self.wf(),
        ensures
            r == self@.len(),
    {
        self.size
    }

    /// The lowest set slot, or `None` where every slot is clear.
    pub fn scan(&self) -> (r: Option<usize>)
        requires
            self.wf(),
        ensures
            r == lowest_set(self@),
    {
        let n: usize = self.data.len();
        let mut byte_index: usize = 0;
        while byte_index < n
            invariant
                self.wf(),
                n == self.data@.len(),
                byte_index <= n,
                forall|j: int| 0 <= j < byte_index * 8 ==> !#[trigger] bit_at(self.data@, j),
            decreases n - byte_index,
        {
            let b: u8 = self.data[byte_index];
            if b != 0 {
                let mut bit_index: u8 = 0;
                while bit_index < 8
                    invariant
                        self.wf(),
                        n == self.data@.len(),
                        byte_index < n,
                        b == self.data@[byte_index as int],
                        bit_index <= 8,
                        forall|j: int|
                            0 <= j < byte_index * 8 + bit_index ==> !#[trigger] bit_at(
                                self.data@,
                                j,
                            ),
                    decreases 8 - bit_index,
                {
                    if b & (1u8 << bit_index) != 0 {
                        let i: usize = byte_index * 8 + bit_index as usize;
                        assert(bit_at(self.data@, i as int));
                        proof {
                            lemma_lowest_set(self@, i as int);
                        }
                        return Some(i);
                    }
                    assert(!bit_at(self.data@, byte_index * 8 + bit_index));
                    bit_index = bit_index + 1;
                }
            } else {
                assert forall|j: int|
                    0 <= j < byte_index * 8 + 8 implies !#[trigger] bit_at(self.data@, j) by {
                    if j >= byte_index * 8 {
                        lemma_zero_byte(b, (j % 8) as u8);
                    }
                }
            }
            byte_index = byte_index + 1;
        }
        proof {
            lemma_none_set(self@);
        }
        None
    }
}

/// Setting a slot and then testing and clearing it twice finds it set the
/// first time and clear the second.
pub proof fn lemma_set_then_test_and_clear(s: Seq<bool>, i: int)
    requires
        0 <= i < s.len(),
    ensures
        s.update(i, true)[i],
        !s.update(i, true).update(i, false)[i],
        s.update(i, true).update(i, false).update(i, false) == s.update(i, true).update(i, false),
{
    assert(s.update(i, true).update(i, false).update(i, false) =~= s.update(i, true).update(
        i,
        false,
    ));
}

} // verus!
