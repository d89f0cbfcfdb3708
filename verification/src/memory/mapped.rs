use crate::interrupt::Interrupt;
use crate::memory::Memory;
use vstd::prelude::*;

verus! {

/// A region of the bus: the memory that serves the addresses from `start`
/// on, `size` of them. A region of size 0 serves no address and still gets
/// the clock.
#[derive(Debug)]
pub struct Region<M> {
    pub start: u16,
    pub size: u16,
    pub memory: M,
}

/// The state of a region.
pub struct RegionState<V> {
    pub start: u16,
    pub size: u16,
    pub state: V,
}

impl<M: Memory> View for Region<M> {
    type V = RegionState<M::V>;

    open spec fn view(&self) -> RegionState<M::V> {
        RegionState { start: self.start, size: self.size, state: self.memory@ }
    }
}

impl<V> RegionState<V> {
    /// Whether `address` lies in `start..start + size`.
    pub open spec fn covers(self, address: u16) -> bool {
        self.start <= address && address - self.start < self.size
    }
}

/// The index of the region that serves `address` among the first `count`
/// regions: the one added last wins.
pub open spec fn serving<V>(regions: Seq<RegionState<V>>, address: u16, count: int) -> Option<int>
    decreases count,
{
    if count <= 0 || count > regions.len() {
        None
    } else if regions[count - 1].covers(address) {
        Some(count - 1)
    } else {
        serving(regions, address, count - 1)
    }
}

/// A serving region is a valid index and covers the address.
pub proof fn lemma_serving<V>(regions: Seq<RegionState<V>>, address: u16, count: int)
    requires
        count <= regions.len(),
    ensures
        serving(regions, address, count) matches Some(index) ==> 0 <= index < count
            && regions[index].covers(address),
    decreases count,
{
    if count > 0 && !regions[count - 1].covers(address) {
        lemma_serving(regions, address, count - 1);
    }
}

/// The lines raised by the clock hooks of the first `count` regions.
pub open spec fn signals<M: Memory>(
    regions: Seq<RegionState<M::V>>,
    cycle: usize,
    count: int,
) -> Interrupt
    decreases count,
{
    if count <= 0 || count > regions.len() {
        Interrupt { irq: false, nmi: false }
    } else {
        signals::<M>(regions, cycle, count - 1).join(
            M::update_signal(regions[count - 1].state, cycle),
        )
    }
}

/// An address-decoded bus: a list of regions in the order in which they
/// were added.
#[derive(Debug)]
pub struct MappedMemory<M> {
    pub memories: Vec<Region<M>>,
}

impl<M: Memory> View for MappedMemory<M> {
    type V = Seq<RegionState<M::V>>;

    open spec fn view(&self) -> Seq<RegionState<M::V>> {
        Seq::new(self.memories@.len(), |i: int| self.memories@[i]@)
    }
}

impl<M: Memory> MappedMemory<M> {
    /// A bus without regions.
    pub fn new() -> (bus: Self)
        ensures
            bus@ == Seq::<RegionState<M::V>>::empty(),
            bus.wf(),
    {
        let bus = Self { memories: Vec::new() };
        assert(bus@ =~= Seq::<RegionState<M::V>>::empty());
        bus
    }

    /// Adds a region that serves `size` addresses from `address` on. Where
    /// it overlaps regions added before, it is the one that serves.
    pub fn add_memory(&mut self, address: u16, size: u16, memory: M)
        requires
            old(self).wf(),
            memory.wf(),
        ensures
            final(self).wf(),
            final(self)@ == old(self)@.push(RegionState { start: address, size, state: memory@ }),
    {
        self.memories.push(Region { start: address, size, memory });
        assert(self@ =~= old(self)@.push(RegionState { start: address, size, state: memory@ }));
    }

    /// Adds a device that serves no address and only gets the clock.
    pub fn add_device(&mut self, memory: M)
        requires
            old(self).wf(),
            memory.wf(),
        ensures
            final(self).wf(),
            final(self)@ == old(self)@.push(RegionState { start: 0, size: 0, state: memory@ }),
    {
        self.add_memory(0, 0, memory);
    }

    /// The index of the region that serves `address`.
    fn find(&self, address: u16) -> (index: Option<usize>)
        ensures
            match index {
                Some(found) => found < self.memories@.len() && serving(
                    self@,
                    address,
                    self@.len() as int,
                ) == Some(found as int) && self@[found as int].covers(address),
                None => serving(self@, address, self@.len() as int) is None,
            },
    {
        let mut count = self.memories.len();
        while count > 0
            invariant
                count <= self.memories@.len(),
                self@.len() == self.memories@.len(),
                serving(self@, address, self@.len() as int) == serving(self@, address, count as int),
            decreases count,
        {
            let region = &self.memories[count - 1];
            assert(self@[count - 1] == region@);
            if region.size != 0 && region.start <= address && address - region.start
                < region.size {
                return Some(count - 1);
            }
            count -= 1;
        }
        None
    }
}

impl<M: Memory> Memory for MappedMemory<M> {
    /// The bus is valid when each of its regions is.
    open spec fn wf(&self) -> bool {
        forall|i: int| 0 <= i < self.memories@.len() ==> (#[trigger] self.memories@[i]).memory.wf()
    }

    /// The serving region reads, at the address counted from its start; an
    /// address that no region serves reads as 0.
    open spec fn read_value(m: Seq<RegionState<M::V>>, address: u16) -> u8 {
        match serving(m, address, m.len() as int) {
            Some(index) => M::read_value(m[index].state, (address - m[index].start) as u16),
            None => 0,
        }
    }

    open spec fn read_effect(m: Seq<RegionState<M::V>>, address: u16) -> Seq<RegionState<M::V>> {
        match serving(m, address, m.len() as int) {
            Some(index) => m.update(
                index,
                RegionState {
                    state: M::read_effect(m[index].state, (address - m[index].start) as u16),
                    ..m[index]
                },
            ),
            None => m,
        }
    }

    /// The serving region is written, at the address counted from its
    /// start; a write to an address that no region serves is dropped.
    open spec fn write_effect(m: Seq<RegionState<M::V>>, address: u16, value: u8) -> Seq<
        RegionState<M::V>,
    > {
        match serving(m, address, m.len() as int) {
            Some(index) => m.update(
                index,
                RegionState {
                    state: M::write_effect(
                        m[index].state,
                        (address - m[index].start) as u16,
                        value,
                    ),
                    ..m[index]
                },
            ),
            None => m,
        }
    }

    /// A line is raised when the clock hook of any region raises it.
    open spec fn update_signal(m: Seq<RegionState<M::V>>, cycle: usize) -> Interrupt {
        signals::<M>(m, cycle, m.len() as int)
    }

    /// Every region gets the clock, in the order in which they were added.
    open spec fn update_effect(m: Seq<RegionState<M::V>>, cycle: usize) -> Seq<RegionState<M::V>> {
        Seq::new(
            m.len(),
            |i: int| RegionState { state: M::update_effect(m[i].state, cycle), ..m[i] },
        )
    }

    fn read_u8(&mut self, address: u16) -> (value: u8) {
        proof {
            lemma_serving(self@, address, self@.len() as int);
        }
        match self.find(address) {
            Some(index) => {
                let start = self.memories[index].start;
                assert(self@[index as int] == self.memories@[index as int]@);
                assert(self@[index as int].covers(address));
                let value = self.memories[index].memory.read_u8(address - start);
                assert(self.memories@[index as int]@ == (RegionState {
                    state: M::read_effect(old(self)@[index as int].state, (address - start) as u16),
                    ..old(self)@[index as int]
                }));
                assert(self@ =~= Self::read_effect(old(self)@, address));
                value
            },
            None => 0,  // fallback
        }
    }

    fn write_u8(&mut self, address: u16, value: u8) {
        proof {
            lemma_serving(self@, address, self@.len() as int);
        }
        match self.find(address) {
            Some(index) => {
                let start = self.memories[index].start;
                assert(self@[index as int] == self.memories@[index as int]@);
                assert(self@[index as int].covers(address));
                self.memories[index].memory.write_u8(address - start, value);
                assert(self.memories@[index as int]@ == (RegionState {
                    state: M::write_effect(
                        old(self)@[index as int].state,
                        (address - start) as u16,
                        value,
                    ),
                    ..old(self)@[index as int]
                }));
                assert(self@ =~= Self::write_effect(old(self)@, address, value));
            },
            None => {},
        }
    }

    fn update(&mut self, cycle: usize) -> (signal: Interrupt) {
        let mut interrupt = Interrupt::none();
        let count = self.memories.len();
        let mut i: usize = 0;
        while i < count
            invariant
                i <= count,
                count == self.memories@.len(),
                count == old(self).memories@.len(),
                self.wf(),
                interrupt == signals::<M>(old(self)@, cycle, i as int),
                forall|k: int|
                    0 <= k < i ==> (#[trigger] self.memories@[k])@ == (RegionState {
                        state: M::update_effect(old(self)@[k].state, cycle),
                        ..old(self)@[k]
                    }),
                forall|k: int| i <= k < count ==> (#[trigger] self.memories@[k]) == old(
                    self,
                ).memories@[k],
            decreases count - i,
        {
            assert(old(self)@[i as int] == old(self).memories@[i as int]@);
            let raised = self.memories[i].memory.update(cycle);
            interrupt = interrupt.or(raised);
            i += 1;
        }
        assert(self@ =~= Self::update_effect(old(self)@, cycle));
        interrupt
    }
}

} // verus!
