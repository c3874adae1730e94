use vstd::prelude::*;

verus! {

/// The magnitude `|x|` as an unsigned number (defined for every `isize`).
pub open spec fn abs_usize(x: isize) -> usize {
    if x >= 0 {
        x as usize
    } else {
        (-(x as int)) as usize
    }
}

/// The value a negative-ID allocator counter takes after issuing `id`:
/// `None` once the counter is no longer negative (exhausted).
pub open spec fn next_input_counter(id: isize) -> Option<isize> {
    if id < 0 {
        if id == isize::MIN { Some(0isize) } else { Some((id - 1) as isize) }
    } else {
        None
    }
}

/// The value a positive-ID allocator counter takes after issuing `id`:
/// `None` once the counter is no longer positive (exhausted).
pub open spec fn next_output_counter(id: isize) -> Option<isize> {
    if id > 0 {
        if id == isize::MAX { Some(0isize) } else { Some((id + 1) as isize) }
    } else {
        None
    }
}

/// An input or output port identifier, with direction encoded by its sign.
///
/// Inputs are strictly negative, outputs strictly positive, and zero is invalid.
#[derive(Clone, Copy, Debug, Eq, Hash, Ord, PartialEq, PartialOrd, Structural)]
pub enum PortId {
    /// An input port, identified by a strictly negative integer.
    Input(InputPortId),
    /// An output port, identified by a strictly positive integer.
    Output(OutputPortId),
}

/// An input port identifier represented by a strictly negative `isize`.
///
/// The raw field is public so that malformed values can be built and then be
/// rejected by validation; `TryFrom<isize>` only produces negative IDs.
#[derive(Clone, Copy, Debug, Eq, Hash, Ord, PartialEq, PartialOrd, Structural)]
pub struct InputPortId(pub isize);

/// An output port identifier represented by a strictly positive `isize`.
///
/// The raw field is public so that malformed values can be built and then be
/// rejected by validation; `TryFrom<isize>` only produces positive IDs.
#[derive(Clone, Copy, Debug, Eq, Hash, Ord, PartialEq, PartialOrd, Structural)]
pub struct OutputPortId(pub isize);

impl PortId {
    /// The signed identifier of the port.
    pub open spec fn raw(self) -> isize {
        match self {
            PortId::Input(id) => id.0,
            PortId::Output(id) => id.0,
        }
    }

    /// A port ID is well formed when inputs are negative and outputs positive.
    pub open spec fn is_valid(self) -> bool {
        match self {
            PortId::Input(id) => id.0 < 0,
            PortId::Output(id) => id.0 > 0,
        }
    }

    /// The port with the signed ID `id`, as `TryFrom<isize>` decodes it.
    pub open spec fn decode(id: isize) -> Result<PortId, &'static str> {
        if id < 0 {
            Ok(PortId::Input(InputPortId(id)))
        } else if id > 0 {
            Ok(PortId::Output(OutputPortId(id)))
        } else {
            Err("Port IDs cannot be zero")
        }
    }

    /// Returns the signed identifier, preserving its direction.
    pub fn as_isize(&self) -> (r: isize)
        ensures
            r == self.raw(),
    {
        match self {
            PortId::Input(id) => id.0,
            PortId::Output(id) => id.0,
        }
    }

    /// Encodes the signed ID as a direction-preserving unsigned key.
    ///
    /// Outputs occupy `1..=isize::MAX`; inputs occupy the upper half of `usize`.
    /// For example, input `-1` becomes `usize::MAX`.
    pub fn as_usize(&self) -> (r: usize)
        ensures
            r == self.raw() as usize,
    {
        self.as_isize() as usize
    }

    /// Decodes the unsigned key produced by [`as_usize`](Self::as_usize).
    ///
    /// Every nonzero `usize` maps to exactly one valid `PortId`.
    ///
    /// # Errors
    ///
    /// Returns an error for zero.
    pub fn from_usize(encoded: usize) -> (r: Result<Self, &'static str>)
        ensures
            r == PortId::decode(encoded as isize),
    {
        Self::try_from(encoded as isize)
    }

    /// Returns the direction-local unsigned magnitude, including for `isize::MIN`.
    pub fn magnitude(&self) -> (r: usize)
        ensures
            r == abs_usize(self.raw()),
    {
        unsigned_abs(self.as_isize())
    }
}

/// `|x|` as a `usize`, without overflow for `isize::MIN`.
fn unsigned_abs(x: isize) -> (r: usize)
    ensures
        r == abs_usize(x),
{
    if x >= 0 {
        x as usize
    } else {
        let y: isize = -(x + 1);
        y as usize + 1
    }
}

impl TryFrom<isize> for PortId {
    type Error = &'static str;

    fn try_from(id: isize) -> (r: Result<Self, Self::Error>) {
        if id < 0 {
            Ok(PortId::Input(InputPortId(id)))
        } else if id > 0 {
            Ok(PortId::Output(OutputPortId(id)))
        } else {
            Err("Port IDs cannot be zero")
        }
    }
}

impl vstd::std_specs::convert::TryFromSpecImpl<isize> for PortId {
    open spec fn obeys_try_from_spec() -> bool {
        true
    }

    open spec fn try_from_spec(v: isize) -> Result<Self, &'static str> {
        PortId::decode(v)
    }
}

impl From<InputPortId> for PortId {
    fn from(input: InputPortId) -> (r: Self) {
        PortId::Input(input)
    }
}

impl vstd::std_specs::convert::FromSpecImpl<InputPortId> for PortId {
    open spec fn obeys_from_spec() -> bool {
        true
    }

    open spec fn from_spec(v: InputPortId) -> PortId {
        PortId::Input(v)
    }
}

impl From<OutputPortId> for PortId {
    fn from(input: OutputPortId) -> (r: Self) {
        PortId::Output(input)
    }
}

impl vstd::std_specs::convert::FromSpecImpl<OutputPortId> for PortId {
    open spec fn obeys_from_spec() -> bool {
        true
    }

    open spec fn from_spec(v: OutputPortId) -> PortId {
        PortId::Output(v)
    }
}

impl From<PortId> for isize {
    fn from(input: PortId) -> (r: isize) {
        input.as_isize()
    }
}

impl vstd::std_specs::convert::FromSpecImpl<PortId> for isize {
    open spec fn obeys_from_spec() -> bool {
        true
    }

    open spec fn from_spec(v: PortId) -> isize {
        v.raw()
    }
}

impl From<PortId> for usize {
    fn from(input: PortId) -> (r: usize) {
        input.as_usize()
    }
}

impl vstd::std_specs::convert::FromSpecImpl<PortId> for usize {
    open spec fn obeys_from_spec() -> bool {
        true
    }

    open spec fn from_spec(v: PortId) -> usize {
        v.raw() as usize
    }
}

impl AsRef<isize> for PortId {
    /// The signed identifier.
    fn as_ref(&self) -> (r: &isize)
        ensures
            *r == self.raw(),
    {
        match self {
            PortId::Input(id) => &id.0,
            PortId::Output(id) => &id.0,
        }
    }
}

impl InputPortId {
    /// Returns the one-based, direction-local unsigned magnitude.
    pub fn magnitude(&self) -> (r: usize)
        ensures
            r == abs_usize(self.0),
    {
        unsigned_abs(self.0)
    }

    /// Returns the magnitude minus one (`-1` maps to zero).
    pub fn index(&self) -> (r: usize)
        requires
            self.0 != 0,
        ensures
            r == abs_usize(self.0) - 1,
    {
        self.magnitude() - 1
    }

    /// Issues the counter's current value as an ID and advances the counter,
    /// or returns `None` once the negative ID space is exhausted.
    ///
    /// The counter moves from `id` to `id - 1`; after `isize::MIN` it becomes zero,
    /// which marks exhaustion.
    pub fn allocate(counter: &core::sync::atomic::AtomicIsize) -> (r: Option<Self>)
        ensures
            r matches Some(id) ==> id.0 < 0,
    {
        match counter_fetch_update_input(counter) {
            Ok(previous) => Some(InputPortId(previous)),
            Err(_) => None,
        }
    }
}

/// The counter step of [`InputPortId::allocate`], as an executable function.
fn advance_input_counter(id: isize) -> (r: Option<isize>)
    ensures
        r == next_input_counter(id),
{
    if id < 0 {
        match id.checked_sub(1) {
            Some(next) => Some(next),
            None => Some(0),
        }
    } else {
        None
    }
}

/// The counter step of [`OutputPortId::allocate`], as an executable function.
fn advance_output_counter(id: isize) -> (r: Option<isize>)
    ensures
        r == next_output_counter(id),
{
    if id > 0 {
        match id.checked_add(1) {
            Some(next) => Some(next),
            None => Some(0),
        }
    } else {
        None
    }
}

/// Calls `AtomicIsize::fetch_update` with the step [`advance_input_counter`].
///
/// As std documents, the result is `Ok(previous)` when the step returned `Some`
/// for the value it read (which it then stored), and `Err(previous)` when it
/// returned `None`. Which value is read depends on the counter's shared state.
#[verifier::external_body]
fn counter_fetch_update_input(counter: &core::sync::atomic::AtomicIsize) -> (r: Result<isize, isize>)
    ensures
        r matches Ok(previous) ==> next_input_counter(previous) is Some,
        r matches Err(previous) ==> next_input_counter(previous) is None,
{
    counter.fetch_update(
        core::sync::atomic::Ordering::AcqRel,
        core::sync::atomic::Ordering::Acquire,
        |id| advance_input_counter(id),
    )
}

/// Calls `AtomicIsize::fetch_update` with the step [`advance_output_counter`].
///
/// As std documents, the result is `Ok(previous)` when the step returned `Some`
/// for the value it read (which it then stored), and `Err(previous)` when it
/// returned `None`. Which value is read depends on the counter's shared state.
#[verifier::external_body]
fn counter_fetch_update_output(counter: &core::sync::atomic::AtomicIsize) -> (r: Result<isize, isize>)
    ensures
        r matches Ok(previous) ==> next_output_counter(previous) is Some,
        r matches Err(previous) ==> next_output_counter(previous) is None,
{
    counter.fetch_update(
        core::sync::atomic::Ordering::AcqRel,
        core::sync::atomic::Ordering::Acquire,
        |id| advance_output_counter(id),
    )
}

impl TryFrom<isize> for InputPortId {
    type Error = &'static str;

    fn try_from(id: isize) -> (r: Result<Self, Self::Error>) {
        if id < 0 {
            Ok(InputPortId(id))
        } else {
            Err("Input port IDs must be negative integers")
        }
    }
}

impl vstd::std_specs::convert::TryFromSpecImpl<isize> for InputPortId {
    open spec fn obeys_try_from_spec() -> bool {
        true
    }

    open spec fn try_from_spec(v: isize) -> Result<Self, &'static str> {
        if v < 0 {
            Ok(InputPortId(v))
        } else {
            Err("Input port IDs must be negative integers")
        }
    }
}

impl From<InputPortId> for isize {
    fn from(input: InputPortId) -> (r: isize) {
        input.0
    }
}

impl vstd::std_specs::convert::FromSpecImpl<InputPortId> for isize {
    open spec fn obeys_from_spec() -> bool {
        true
    }

    open spec fn from_spec(v: InputPortId) -> isize {
        v.0
    }
}

impl From<InputPortId> for usize {
    fn from(input: InputPortId) -> (r: usize) {
        input.magnitude()
    }
}

impl vstd::std_specs::convert::FromSpecImpl<InputPortId> for usize {
    open spec fn obeys_from_spec() -> bool {
        true
    }

    open spec fn from_spec(v: InputPortId) -> usize {
        abs_usize(v.0)
    }
}

impl AsRef<isize> for InputPortId {
    /// The signed identifier.
    fn as_ref(&self) -> (r: &isize)
        ensures
            *r == self.0,
    {
        &self.0
    }
}

impl OutputPortId {
    /// Returns the one-based, direction-local unsigned magnitude.
    pub fn magnitude(&self) -> (r: usize)
        ensures
            r == self.0 as usize,
    {
        self.0 as usize
    }

    /// Returns the magnitude minus one (`1` maps to zero).
    pub fn index(&self) -> (r: usize)
        requires
            self.0 > 0,
        ensures
            r == self.0 - 1,
    {
        self.magnitude() - 1
    }

    /// Issues the counter's current value as an ID and advances the counter,
    /// or returns `None` once the positive ID space is exhausted.
    ///
    /// The counter moves from `id` to `id + 1`; after `isize::MAX` it becomes zero,
    /// which marks exhaustion.
    pub fn allocate(counter: &core::sync::atomic::AtomicIsize) -> (r: Option<Self>)
        ensures
            r matches Some(id) ==> id.0 > 0,
    {
        match counter_fetch_update_output(counter) {
            Ok(previous) => Some(OutputPortId(previous)),
            Err(_) => None,
        }
    }
}

impl TryFrom<isize> for OutputPortId {
    type Error = &'static str;

    fn try_from(input: isize) -> (r: Result<Self, Self::Error>) {
        if input > 0 {
            Ok(OutputPortId(input))
        } else {
            Err("Output port IDs must be positive integers")
        }
    }
}

impl vstd::std_specs::convert::TryFromSpecImpl<isize> for OutputPortId {
    open spec fn obeys_try_from_spec() -> bool {
        true
    }

    open spec fn try_from_spec(v: isize) -> Result<Self, &'static str> {
        if v > 0 {
            Ok(OutputPortId(v))
        } else {
            Err("Output port IDs must be positive integers")
        }
    }
}

impl From<OutputPortId> for isize {
    fn from(input: OutputPortId) -> (r: isize) {
        input.0
    }
}

impl vstd::std_specs::convert::FromSpecImpl<OutputPortId> for isize {
    open spec fn obeys_from_spec() -> bool {
        true
    }

    open spec fn from_spec(v: OutputPortId) -> isize {
        v.0
    }
}

impl From<OutputPortId> for usize {
    fn from(input: OutputPortId) -> (r: usize) {
        input.magnitude()
    }
}

impl vstd::std_specs::convert::FromSpecImpl<OutputPortId> for usize {
    open spec fn obeys_from_spec() -> bool {
        true
    }

    open spec fn from_spec(v: OutputPortId) -> usize {
        v.0 as usize
    }
}

impl AsRef<isize> for OutputPortId {
    /// The signed identifier.
    fn as_ref(&self) -> (r: &isize)
        ensures
            *r == self.0,
    {
        &self.0
    }
}

} // verus!
