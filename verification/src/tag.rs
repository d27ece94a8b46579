use vstd::prelude::*;

use core::marker::PhantomData;

verus! {

/// Type-level numbers.
pub type U0 = Zero;
pub type U1 = Suc<U0>;
pub type U2 = Suc<U1>;
/// The length of a bit map.
pub type Len<L> = <L as BitMap>::L;
/// The tag list with no tag.
pub type EmptyTagList = BitMapSegment<BitMapSegment<BitMapSegment<Terminal, False>, False>, False>;
/// A bit map with the bit of tag `F` set.
pub type AddTag<B, F> = <B as SetBit<<F as Tag>::Offset, True>>::Result;
/// A bit map with the bit of tag `F` cleared.
pub type RemoveTag<B, F> = <B as SetBit<<F as Tag>::Offset, False>>::Result;
/// Tag lists of one, two and three tags.
pub type TagList1<T1> = AddTag<EmptyTagList, T1>;
pub type TagList2<T1, T2> = AddTag<TagList1<T1>, T2>;
pub type TagList3<T1, T2, T3> = AddTag<TagList2<T1, T2>, T3>;
/// The bit of a tag.
pub type OffsetOfTag<T> = <T as Tag>::Offset;
/// Two bit maps merged bit by bit.
pub type ConcreteBitMap<L1, L2> = <L1 as MergeBitMap<Len<L1>, L2>>::Output;
/// Two tag lists merged.
pub type ConcreteList<L1, L2> = <L1 as MergeList<L2>>::Output;

/// The end of a bit map.
#[derive(Default)]
pub struct Terminal;

/// The type-level zero.
#[derive(Default)]
pub struct Zero;

/// The type-level successor of `T`.
#[derive(Default)]
pub struct Suc<T>(PhantomData<T>);

/// The type-level booleans.
#[derive(Default)]
pub struct True;
#[derive(Default)]
pub struct False;

/// A bit map: the bits `U` followed by the bit `B`.
#[derive(Default)]
pub struct BitMapSegment<U: BitMap, B: Bool>(PhantomData<(U, B)>);

/// A bit map as long as the tag list with no tag.
pub trait TagList: BitMap<L = Len<EmptyTagList>> {}

/// A type-level bit map with its length.
pub trait BitMap: 'static {
    type L: Usize;
}

/// A type-level number.
pub trait Usize: 'static {}

/// A type-level boolean.
pub trait Bool: 'static {}

/// Type-level conjunction.
pub trait And<R: Bool> {
    type Result: Bool;
}

/// Type-level disjunction.
pub trait Or<R: Bool> {
    type Result: Bool;
}

/// The combination that is always false.
pub trait AlwaysFalse<R: Bool> {
    type Result: Bool;
}

/// A number with a predecessor.
pub trait NonZero {
    type Prev: Usize;
}

/// A tag, known by the bit it sets.
pub trait Tag {
    type Offset: Usize;
}

/// Holds when bit `O` of the map is `V`.
pub trait AssertBit<O: Usize, V: Bool>: BitMap {}

/// The map with bit `O` set to `V`.
pub trait SetBit<O: Usize, V: Bool>: BitMap {
    type Result: BitMap<L = Self::L>;
}

/// Bit `O` of the map.
pub trait GetBit<O: Usize>: BitMap {
    type Result: Bool;
}

/// A tag list that holds `T`.
pub trait HasTag<T: Tag>: TagList {}

/// A tag list that does not hold `T`.
pub trait NoTag<T: Tag>: TagList {}

/// A tag held by the list `L`.
pub trait InList<L: TagList>: Tag {}

/// A tag not held by the list `L`.
pub trait NotInList<L: TagList>: Tag {}

/// Two tag lists merged.
pub trait MergeList<R: TagList>: TagList {
    type Output: TagList;
}

/// Two bit maps of length `L` merged bit by bit.
pub trait MergeBitMap<L: Usize, R: BitMap<L = L>>: BitMap {
    type Output: BitMap<L = L>;
}

impl Usize for Zero {}

impl<P: Usize> Usize for Suc<P> {}

impl<P: Usize> NonZero for Suc<P> {
    type Prev = P;
}

impl Bool for True {}
impl Bool for False {}

impl BitMap for Terminal {
    type L = Zero;
}

impl<U: BitMap, B: Bool> BitMap for BitMapSegment<U, B> {
    type L = Suc<U::L>;
}

impl<U: BitMap> AssertBit<U0, True> for BitMapSegment<U, True> {}

impl<U: BitMap> AssertBit<U0, False> for BitMapSegment<U, False> {}

impl<U: BitMap + AssertBit<O::Prev, A>, O: NonZero + Usize, A: Bool, H: Bool> AssertBit<O, A>
    for BitMapSegment<U, H>
{
}

impl<U: BitMap, V: Bool, H: Bool> SetBit<U0, V> for BitMapSegment<U, H> {
    type Result = BitMapSegment<U, V>;
}

impl<U: BitMap, O: NonZero + Usize, V: Bool, H: Bool> SetBit<O, V> for BitMapSegment<U, H>
where
    U: SetBit<O::Prev, V>,
{
    type Result = BitMapSegment<<U as SetBit<O::Prev, V>>::Result, H>;
}

impl<U: BitMap, H: Bool> GetBit<U0> for BitMapSegment<U, H> {
    type Result = H;
}

impl<U: BitMap, O: NonZero + Usize, H: Bool> GetBit<O> for BitMapSegment<U, H>
where
    U: GetBit<O::Prev>,
{
    type Result = <U as GetBit<O::Prev>>::Result;
}

impl<T: Tag, B: TagList + AssertBit<T::Offset, True>> HasTag<T> for B {}

impl<T: Tag, B: TagList + AssertBit<T::Offset, False>> NoTag<T> for B {}

impl<T: Tag, L: TagList + HasTag<T> + AssertBit<T::Offset, True>> InList<L> for T {}
impl<T: Tag, L: TagList + NoTag<T> + AssertBit<T::Offset, False>> NotInList<L> for T {}

impl And<True> for True {
    type Result = True;
}

impl And<False> for True {
    type Result = False;
}

impl And<True> for False {
    type Result = False;
}

impl And<False> for False {
    type Result = False;
}

impl Or<True> for True {
    type Result = True;
}

impl Or<False> for True {
    type Result = True;
}

impl Or<True> for False {
    type Result = True;
}

impl Or<False> for False {
    type Result = False;
}

impl<L: Bool, R: Bool> AlwaysFalse<R> for L {
    type Result = False;
}

impl MergeBitMap<Zero, Terminal> for Terminal {
    type Output = Terminal;
}

impl<L: TagList + MergeBitMap<Len<EmptyTagList>, R>, R: TagList> MergeList<R> for L {
    type Output = <L as MergeBitMap<Len<EmptyTagList>, R>>::Output;
}

impl<B: BitMap<L = Len<EmptyTagList>>> TagList for B {}

/// A tag at offset `U0`; merging two lists combines its bits with `And`.
pub struct OrdViewTag;

impl Tag for OrdViewTag {
    type Offset = U0;
}

impl<
    L: BitMap<L = U0> + MergeBitMap<U0, R>,
    R: BitMap<L = U0>,
    LH: Bool + And<RH>,
    RH: Bool,
> MergeBitMap<Suc<U0>, BitMapSegment<R, RH>> for BitMapSegment<L, LH> {
    type Output = BitMapSegment<<L as MergeBitMap<U0, R>>::Output, <LH as And<RH>>::Result>;
}

/// A tag at offset `U1`; merging two lists combines its bits with `AlwaysFalse`.
pub struct EntityViewTag;

impl Tag for EntityViewTag {
    type Offset = U1;
}

impl<
    L: BitMap<L = U1> + MergeBitMap<U1, R>,
    R: BitMap<L = U1>,
    LH: Bool + AlwaysFalse<RH>,
    RH: Bool,
> MergeBitMap<Suc<U1>, BitMapSegment<R, RH>> for BitMapSegment<L, LH> {
    type Output = BitMapSegment<<L as MergeBitMap<U1, R>>::Output, <LH as AlwaysFalse<RH>>::Result>;
}

/// A tag at offset `U2`; merging two lists combines its bits with `And`.
pub struct AggregateViewTag;

impl Tag for AggregateViewTag {
    type Offset = U2;
}

impl<
    L: BitMap<L = U2> + MergeBitMap<U2, R>,
    R: BitMap<L = U2>,
    LH: Bool + And<RH>,
    RH: Bool,
> MergeBitMap<Suc<U2>, BitMapSegment<R, RH>> for BitMapSegment<L, LH> {
    type Output = BitMapSegment<<L as MergeBitMap<U2, R>>::Output, <LH as And<RH>>::Result>;
}

} // verus!
