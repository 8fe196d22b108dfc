//! Register codec: planning the contiguous window that covers a set of
//! registers, and the paired-register encoding of 32-bit values.
//!
//! A logical value is an IEEE-754 single, handled here as its 32-bit
//! pattern. On the wire it spans two consecutive 16-bit registers, the
//! most significant register first.

use vstd::prelude::*;

verus! {

/// Number of 16-bit registers that one logical value spans.
pub const REGISTERS_PER_VALUE: u16 = 2;

/// Whether a register is polled or written.
#[derive(Clone, Copy, Debug, PartialEq, Eq, Structural)]
pub enum RegisterKind {
    Read,
    Write,
}

/// One declared register: a named logical value at a register address.
/// `value` is the 32-bit pattern to send, for a register that is written.
#[derive(Debug)]
pub struct RegisterDescriptor {
    pub name: String,
    pub address: u16,
    pub kind: RegisterKind,
    pub value: Option<u32>,
}

impl RegisterDescriptor {
    /// A register that is polled.
    pub fn read(name: String, address: u16) -> (descriptor: Self)
        ensures
            descriptor == (RegisterDescriptor {
                name,
                address,
                kind: RegisterKind::Read,
                value: None,
            }),
    {
        RegisterDescriptor { name, address, kind: RegisterKind::Read, value: None }
    }

    /// A register that is written with the 32-bit pattern `value`.
    pub fn write(name: String, address: u16, value: u32) -> (descriptor: Self)
        ensures
            descriptor == (RegisterDescriptor {
                name,
                address,
                kind: RegisterKind::Write,
                value: Some(value),
            }),
    {
        RegisterDescriptor { name, address, kind: RegisterKind::Write, value: Some(value) }
    }
}

impl Clone for RegisterDescriptor {
    fn clone(&self) -> (copy: Self)
        ensures
            copy == *self,
    {
        RegisterDescriptor {
            name: self.name.clone(),
            address: self.address,
            kind: self.kind,
            value: self.value,
        }
    }
}

/// The contiguous run of registers that one read covers.
#[derive(Clone, Copy, Debug, PartialEq, Eq, Structural)]
pub struct RegisterPlan {
    pub start_address: u16,
    pub quantity: u16,
}

/// Why planning or decoding failed.
#[derive(Clone, Copy, Debug, PartialEq, Eq, Structural)]
pub enum CodecError {
    /// No descriptor was given, so there is no window to read.
    EmptyPlan,
    /// The descriptor at `index` does not lie inside the window that was read.
    OutOfRange { index: usize },
}

/// One decoded value: the descriptor's name and the 32-bit pattern read for it.
#[derive(Debug)]
pub struct Reading {
    pub name: String,
    pub bits: u32,
}

impl Clone for Reading {
    fn clone(&self) -> (copy: Self)
        ensures
            copy == *self,
    {
        Reading { name: self.name.clone(), bits: self.bits }
    }
}

impl View for Reading {
    type V = (Seq<char>, u32);

    open spec fn view(&self) -> (Seq<char>, u32) {
        (self.name@, self.bits)
    }
}

/// The readings as plain values: name and pattern, in order.
pub open spec fn reading_views(readings: Seq<Reading>) -> Seq<(Seq<char>, u32)> {
    Seq::new(readings.len(), |i: int| readings[i]@)
}

/// The 32-bit pattern that two consecutive registers spell.
pub open spec fn join_words(high: u16, low: u16) -> u32 {
    (high * 0x1_0000 + low) as u32
}

/// The register that is sent first: the upper half of the pattern.
pub open spec fn high_word(bits: u32) -> u16 {
    (bits / 0x1_0000) as u16
}

/// The register that is sent second: the lower half of the pattern.
pub open spec fn low_word(bits: u32) -> u16 {
    (bits % 0x1_0000) as u16
}

/// The registers that carry a pattern, in the order in which they are sent.
pub open spec fn encoded(bits: u32) -> Seq<u16> {
    seq![high_word(bits), low_word(bits)]
}

/// Reassembles a 32-bit pattern from the two registers that carry it.
pub fn join(high: u16, low: u16) -> (bits: u32)
    ensures
        bits == join_words(high, low),
        bits == high * 0x1_0000 + low,
{
    let h: u32 = high as u32;
    let l: u32 = low as u32;
    assert((h << 16) | l == h * 0x1_0000 + l) by (bit_vector)
        requires
            h < 0x1_0000,
            l < 0x1_0000,
    ;
    (h << 16) | l
}

/// Splits a 32-bit pattern into the two registers that carry it, in the
/// order in which they are written: upper half, then lower half.
pub fn encode(value: u32) -> (words: [u16; 2])
    ensures
        words@ == encoded(value),
{
    assert(value >> 16 == value / 0x1_0000) by (bit_vector);
    assert(value & 0xffff == value % 0x1_0000) by (bit_vector);
    assert(value >> 16 < 0x1_0000) by (bit_vector);
    let high: u16 = (value >> 16) as u16;
    let low: u16 = (value & 0xffff) as u16;
    let words: [u16; 2] = [high, low];
    assert(words@ =~= encoded(value));
    words
}

/// Splitting a pattern and joining the halves gives the pattern back.
pub proof fn lemma_join_split(bits: u32)
    ensures
        join_words(high_word(bits), low_word(bits)) == bits,
{
}

/// Joining two registers and splitting the result gives the registers back.
pub proof fn lemma_split_join(high: u16, low: u16)
    ensures
        high_word(join_words(high, low)) == high,
        low_word(join_words(high, low)) == low,
{
}

/// `a` is an address of some descriptor and no descriptor lies below it.
pub open spec fn is_lowest(descriptors: Seq<RegisterDescriptor>, a: u16) -> bool {
    &&& exists|i: int| 0 <= i < descriptors.len() && (#[trigger] descriptors[i]).address == a
    &&& forall|i: int| 0 <= i < descriptors.len() ==> a <= (#[trigger] descriptors[i]).address
}

/// `a` is an address of some descriptor and no descriptor lies above it.
pub open spec fn is_highest(descriptors: Seq<RegisterDescriptor>, a: u16) -> bool {
    &&& exists|i: int| 0 <= i < descriptors.len() && (#[trigger] descriptors[i]).address == a
    &&& forall|i: int| 0 <= i < descriptors.len() ==> (#[trigger] descriptors[i]).address <= a
}

/// The lowest address among the descriptors, where there are any.
pub open spec fn lowest_address(descriptors: Seq<RegisterDescriptor>) -> u16 {
    choose|a: u16| is_lowest(descriptors, a)
}

/// The highest address among the descriptors, where there are any.
pub open spec fn highest_address(descriptors: Seq<RegisterDescriptor>) -> u16 {
    choose|a: u16| is_highest(descriptors, a)
}

/// The window from the lowest to the highest descriptor, two registers for
/// the last value included, has a register count that fits in 16 bits.
pub open spec fn window_fits(descriptors: Seq<RegisterDescriptor>) -> bool {
    forall|i: int, j: int|
        0 <= i < descriptors.len() && 0 <= j < descriptors.len() ==> (
        #[trigger] descriptors[i]).address - (#[trigger] descriptors[j]).address
            + REGISTERS_PER_VALUE <= u16::MAX
}

/// `plan` is the window over `descriptors`: it starts at their lowest
/// address and ends two registers past their highest.
pub open spec fn is_plan_of(plan: RegisterPlan, descriptors: Seq<RegisterDescriptor>) -> bool {
    &&& is_lowest(descriptors, plan.start_address)
    &&& exists|high: u16| #[trigger]
        is_highest(descriptors, high) && plan.quantity == high - plan.start_address
            + REGISTERS_PER_VALUE
}

/// The plan of a set of descriptors, where there is one: the set is not
/// empty and its window fits.
pub open spec fn plan_of(descriptors: Seq<RegisterDescriptor>) -> RegisterPlan {
    choose|plan: RegisterPlan| is_plan_of(plan, descriptors)
}

/// Lowest and highest address among the descriptors; `None` when there are none.
pub fn address_bounds(descriptors: &Vec<RegisterDescriptor>) -> (bounds: Option<(u16, u16)>)
    ensures
        bounds is None <==> descriptors.len() == 0,
        bounds matches Some((low, high)) ==> is_lowest(descriptors@, low) && is_highest(
            descriptors@,
            high,
        ),
{
    if descriptors.len() == 0 {
        return None;
    }
    let mut low: u16 = descriptors[0].address;
    let mut high: u16 = descriptors[0].address;
    let mut i: usize = 1;
    assert(descriptors@.take(1)[0].address == low);
    while i < descriptors.len()
        invariant
            1 <= i <= descriptors.len(),
            is_lowest(descriptors@.take(i as int), low),
            is_highest(descriptors@.take(i as int), high),
        decreases descriptors.len() - i,
    {
        let ghost before = descriptors@.take(i as int);
        let ghost after = descriptors@.take(i + 1);
        let ghost wl = choose|k: int|
            0 <= k < before.len() && (#[trigger] before[k]).address == low;
        let ghost wh = choose|k: int|
            0 <= k < before.len() && (#[trigger] before[k]).address == high;
        let a = descriptors[i].address;
        if a < low {
            low = a;
        }
        if a > high {
            high = a;
        }
        proof {
            assert(after[i as int] == descriptors@[i as int]);
            assert(after[wl] == before[wl]);
            assert(after[wh] == before[wh]);
            assert forall|k: int| 0 <= k < after.len() implies low <= (
            #[trigger] after[k]).address && after[k].address <= high by {
                if k < i {
                    assert(after[k] == before[k]);
                }
            }
        }
        i = i + 1;
    }
    assert(descriptors@.take(i as int) == descriptors@);
    Some((low, high))
}

/// The window between two addresses, two registers for the last value included.
fn window(low: u16, high: u16) -> (plan: RegisterPlan)
    requires
        low <= high,
        high - low + REGISTERS_PER_VALUE <= u16::MAX,
    ensures
        plan.start_address == low,
        plan.quantity == high - low + REGISTERS_PER_VALUE,
{
    RegisterPlan { start_address: low, quantity: high - low + REGISTERS_PER_VALUE }
}

/// Plans the single read that covers every descriptor. The addresses need
/// not be sorted or contiguous. Fails with `EmptyPlan` exactly when no
/// descriptor is given.
pub fn plan(descriptors: &Vec<RegisterDescriptor>) -> (result: Result<RegisterPlan, CodecError>)
    requires
        window_fits(descriptors@),
    ensures
        descriptors.len() == 0 <==> result == Err::<RegisterPlan, CodecError>(
            CodecError::EmptyPlan,
        ),
        descriptors.len() > 0 <==> result is Ok,
        result matches Ok(p) ==> is_plan_of(p, descriptors@) && p == plan_of(descriptors@),
{
    match address_bounds(descriptors) {
        None => Err(CodecError::EmptyPlan),
        Some((low, high)) => {
            proof {
                let i = choose|i: int|
                    0 <= i < descriptors.len() && (#[trigger] descriptors@[i]).address == high;
                let j = choose|j: int|
                    0 <= j < descriptors.len() && (#[trigger] descriptors@[j]).address == low;
                assert(descriptors@[i].address - descriptors@[j].address + REGISTERS_PER_VALUE
                    <= u16::MAX);
                assert(low <= descriptors@[i].address);
            }
            let p = window(low, high);
            assert(is_highest(descriptors@, high) && p.quantity == high - p.start_address
                + REGISTERS_PER_VALUE);
            proof {
                lemma_plan_unique(p, plan_of(descriptors@), descriptors@);
            }
            Ok(p)
        },
    }
}

/// The two registers of the value at `address` lie inside a window of `len`
/// registers that starts at `start`.
pub open spec fn in_window(start: u16, len: nat, address: u16) -> bool {
    start <= address && address - start + 1 < len
}

/// The pattern that the window holds for the value at `address`.
pub open spec fn value_at(start: u16, raw: Seq<u16>, address: u16) -> u32 {
    join_words(raw[address - start], raw[address - start + 1])
}

/// Every descriptor lies inside the window.
pub open spec fn all_in_window(start: u16, len: nat, descriptors: Seq<RegisterDescriptor>) -> bool {
    forall|i: int|
        0 <= i < descriptors.len() ==> in_window(start, len, (#[trigger] descriptors[i]).address)
}

/// `index` is the first descriptor that does not lie inside the window.
pub open spec fn first_outside(
    start: u16,
    len: nat,
    descriptors: Seq<RegisterDescriptor>,
    index: int,
) -> bool {
    &&& 0 <= index < descriptors.len()
    &&& !in_window(start, len, descriptors[index].address)
    &&& all_in_window(start, len, descriptors.take(index))
}

/// Name and pattern of every descriptor, read out of the window.
pub open spec fn decoded(start: u16, raw: Seq<u16>, descriptors: Seq<RegisterDescriptor>) -> Seq<
    (Seq<char>, u32),
> {
    Seq::new(
        descriptors.len(),
        |i: int| (descriptors[i].name@, value_at(start, raw, descriptors[i].address)),
    )
}

/// Decodes the value of every descriptor out of the registers that a read
/// of `plan` returned. Fails with `OutOfRange` exactly when some descriptor
/// does not lie inside the registers received, naming the first such one.
pub fn decode(
    plan: &RegisterPlan,
    raw_values: &Vec<u16>,
    descriptors: &Vec<RegisterDescriptor>,
) -> (result: Result<Vec<Reading>, CodecError>)
    ensures
        result matches Ok(readings) ==> all_in_window(
            plan.start_address,
            raw_values@.len(),
            descriptors@,
        ) && readings.len() == descriptors.len() && reading_views(readings@) == decoded(
            plan.start_address,
            raw_values@,
            descriptors@,
        ),
        result matches Err(e) ==> e matches CodecError::OutOfRange { index } && first_outside(
            plan.start_address,
            raw_values@.len(),
            descriptors@,
            index as int,
        ),
{
    let start = plan.start_address;
    let mut readings: Vec<Reading> = Vec::new();
    let mut i: usize = 0;
    while i < descriptors.len()
        invariant
            i <= descriptors.len(),
            start == plan.start_address,
            readings.len() == i,
            all_in_window(start, raw_values@.len(), descriptors@.take(i as int)),
            reading_views(readings@) == decoded(start, raw_values@, descriptors@.take(i as int)),
        decreases descriptors.len() - i,
    {
        let address = descriptors[i].address;
        if address < start {
            return Err(CodecError::OutOfRange { index: i });
        }
        let offset: usize = (address - start) as usize;
        if offset + 1 >= raw_values.len() {
            return Err(CodecError::OutOfRange { index: i });
        }
        let bits = join(raw_values[offset], raw_values[offset + 1]);
        let ghost before = readings@;
        readings.push(Reading { name: descriptors[i].name.clone(), bits });
        proof {
            let after = descriptors@.take(i + 1);
            assert forall|k: int| 0 <= k < after.len() implies in_window(
                start,
                raw_values@.len(),
                (#[trigger] after[k]).address,
            ) by {
                if k < i {
                    assert(after[k] == descriptors@.take(i as int)[k]);
                }
            }
            assert(reading_views(readings@) =~= decoded(start, raw_values@, after)) by {
                assert forall|k: int| 0 <= k < after.len() implies reading_views(readings@)[k]
                    == decoded(start, raw_values@, after)[k] by {
                    if k < i {
                        assert(readings@[k] == before[k]);
                        assert(reading_views(before)[k] == decoded(
                            start,
                            raw_values@,
                            descriptors@.take(i as int),
                        )[k]);
                    }
                }
            }
        }
        i = i + 1;
    }
    assert(descriptors@.take(i as int) == descriptors@);
    Ok(readings)
}

/// At most one window is the plan of a given set of descriptors.
pub proof fn lemma_plan_unique(
    first: RegisterPlan,
    second: RegisterPlan,
    descriptors: Seq<RegisterDescriptor>,
)
    requires
        is_plan_of(first, descriptors),
        is_plan_of(second, descriptors),
    ensures
        first == second,
{
    let h1 = choose|high: u16| #[trigger]
        is_highest(descriptors, high) && first.quantity == high - first.start_address
            + REGISTERS_PER_VALUE;
    let h2 = choose|high: u16| #[trigger]
        is_highest(descriptors, high) && second.quantity == high - second.start_address
            + REGISTERS_PER_VALUE;
    assert(h1 == h2);
    assert(first.start_address == second.start_address);
}

/// A set of descriptors that is not empty has a lowest and a highest address.
pub proof fn lemma_bounds_exist(descriptors: Seq<RegisterDescriptor>)
    requires
        descriptors.len() > 0,
    ensures
        is_lowest(descriptors, lowest_address(descriptors)),
        is_highest(descriptors, highest_address(descriptors)),
    decreases descriptors.len(),
{
    let last = descriptors.last().address;
    if descriptors.len() == 1 {
        assert(descriptors[0].address == last);
        assert(is_lowest(descriptors, last));
        assert(is_highest(descriptors, last));
    } else {
        let init = descriptors.drop_last();
        lemma_bounds_exist(init);
        let low = lowest_address(init);
        let high = highest_address(init);
        let wl = choose|i: int| 0 <= i < init.len() && (#[trigger] init[i]).address == low;
        let wh = choose|i: int| 0 <= i < init.len() && (#[trigger] init[i]).address == high;
        assert(descriptors[wl] == init[wl]);
        assert(descriptors[wh] == init[wh]);
        let new_low = if last < low {
            last
        } else {
            low
        };
        let new_high = if last > high {
            last
        } else {
            high
        };
        assert forall|k: int| 0 <= k < descriptors.len() implies new_low <= (
        #[trigger] descriptors[k]).address && descriptors[k].address <= new_high by {
            if k < init.len() {
                assert(descriptors[k] == init[k]);
            }
        }
        assert(descriptors[descriptors.len() - 1].address == last);
        assert(is_lowest(descriptors, new_low));
        assert(is_highest(descriptors, new_high));
    }
}

/// A set of descriptors that is not empty and whose window fits has a plan.
pub proof fn lemma_plan_exists(descriptors: Seq<RegisterDescriptor>)
    requires
        descriptors.len() > 0,
        window_fits(descriptors),
    ensures
        is_plan_of(plan_of(descriptors), descriptors),
{
    lemma_bounds_exist(descriptors);
    let low = lowest_address(descriptors);
    let high = highest_address(descriptors);
    let i = choose|i: int|
        0 <= i < descriptors.len() && (#[trigger] descriptors[i]).address == high;
    let j = choose|j: int|
        0 <= j < descriptors.len() && (#[trigger] descriptors[j]).address == low;
    assert(descriptors[i].address - descriptors[j].address + REGISTERS_PER_VALUE <= u16::MAX);
    assert(low <= descriptors[i].address);
    let plan = RegisterPlan {
        start_address: low,
        quantity: (high - low + REGISTERS_PER_VALUE) as u16,
    };
    assert(is_highest(descriptors, high) && plan.quantity == high - plan.start_address
        + REGISTERS_PER_VALUE);
    assert(is_plan_of(plan, descriptors));
}

/// Plan correctness: the plan of a set of descriptors starts at their
/// lowest address, and its register count is the distance from the lowest to
/// the highest address, plus the two registers of the last value.
pub proof fn lemma_plan_correct(plan: RegisterPlan, descriptors: Seq<RegisterDescriptor>)
    requires
        is_plan_of(plan, descriptors),
    ensures
        descriptors.len() > 0,
        is_lowest(descriptors, lowest_address(descriptors)),
        is_highest(descriptors, highest_address(descriptors)),
        plan.start_address == lowest_address(descriptors),
        plan.quantity == highest_address(descriptors) - lowest_address(descriptors)
            + REGISTERS_PER_VALUE,
{
    let high = choose|high: u16| #[trigger]
        is_highest(descriptors, high) && plan.quantity == high - plan.start_address
            + REGISTERS_PER_VALUE;
    assert(is_lowest(descriptors, plan.start_address));
    assert(is_highest(descriptors, high));
    assert(lowest_address(descriptors) == plan.start_address);
    assert(highest_address(descriptors) == high);
}

/// The plan of a set of descriptors covers each of them: every descriptor
/// lies inside a window of `plan.quantity` registers from `plan.start_address`.
pub proof fn lemma_plan_covers(plan: RegisterPlan, descriptors: Seq<RegisterDescriptor>)
    requires
        is_plan_of(plan, descriptors),
    ensures
        all_in_window(plan.start_address, plan.quantity as nat, descriptors),
{
}

/// Round trip: a pattern that is encoded, and then decoded from a window
/// that holds just its two registers, by a single descriptor at the window's
/// start, comes back unchanged.
pub proof fn lemma_round_trip(bits: u32, descriptor: RegisterDescriptor, plan: RegisterPlan)
    requires
        descriptor.address == plan.start_address,
    ensures
        all_in_window(plan.start_address, encoded(bits).len(), seq![descriptor]),
        decoded(plan.start_address, encoded(bits), seq![descriptor]) == seq![
            (descriptor.name@, bits),
        ],
{
    lemma_join_split(bits);
    assert(decoded(plan.start_address, encoded(bits), seq![descriptor]) =~= seq![
        (descriptor.name@, bits),
    ]);
}

} // verus!
