use vstd::prelude::*;

verus! {

/// Whether the sensor produced a new sample in the last measurement cycle.
#[derive(Clone, Copy, Debug, PartialEq, Eq, Structural)]
pub enum Freshness {
    NewData,
    StaleOrUnchanged,
}

/// The four quantities the sensor measures, each published as a series of its
/// own.
#[derive(Clone, Copy, Debug, PartialEq, Eq, Structural)]
pub enum FieldKind {
    Temperature,
    Pressure,
    Humidity,
    GasResistance,
}

/// The `type` tag under which a quantity is stored.
pub open spec fn type_tag_of(kind: FieldKind) -> Seq<char> {
    match kind {
        FieldKind::Temperature => "temperature"@,
        FieldKind::Pressure => "pressure"@,
        FieldKind::Humidity => "humidity"@,
        FieldKind::GasResistance => "gasresistence"@,
    }
}

/// The order in which the quantities of one reading are published.
pub open spec fn publish_order() -> Seq<FieldKind> {
    seq![FieldKind::Temperature, FieldKind::Pressure, FieldKind::Humidity, FieldKind::GasResistance]
}

/// The quantity published after `kind` within one reading, if any.
pub open spec fn kind_after(kind: FieldKind) -> Option<FieldKind> {
    match kind {
        FieldKind::Temperature => Some(FieldKind::Pressure),
        FieldKind::Pressure => Some(FieldKind::Humidity),
        FieldKind::Humidity => Some(FieldKind::GasResistance),
        FieldKind::GasResistance => None,
    }
}

impl FieldKind {
    /// The `type` tag of this quantity.
    pub fn type_tag(&self) -> (r: &'static str)
        ensures
            r@ == type_tag_of(*self),
    {
        match self {
            FieldKind::Temperature => "temperature",
            FieldKind::Pressure => "pressure",
            FieldKind::Humidity => "humidity",
            FieldKind::GasResistance => "gasresistence",
        }
    }

    /// The quantity published after this one, or `None` after the last.
    pub fn next(&self) -> (r: Option<FieldKind>)
        ensures
            r == kind_after(*self),
    {
        match self {
            FieldKind::Temperature => Some(FieldKind::Pressure),
            FieldKind::Pressure => Some(FieldKind::Humidity),
            FieldKind::Humidity => Some(FieldKind::GasResistance),
            FieldKind::GasResistance => None,
        }
    }

    /// All quantities, in publishing order.
    pub fn all() -> (r: Vec<FieldKind>)
        ensures
            r@ == publish_order(),
    {
        let r = vec![FieldKind::Temperature, FieldKind::Pressure, FieldKind::Humidity, FieldKind::GasResistance];
        assert(r@ =~= publish_order());
        r
    }
}

/// Walking `kind_after` from the first quantity visits the publishing order,
/// each quantity once, and ends after the last.
pub proof fn lemma_order_follows_next()
    ensures
        publish_order().len() == 4,
        forall|i: int|
            0 <= i < 3 ==> kind_after(#[trigger] publish_order()[i]) == Some(publish_order()[i + 1]),
        kind_after(publish_order()[3]) is None,
        forall|i: int, j: int|
            0 <= i < j < 4 ==> publish_order()[i] != publish_order()[j],
{
}

/// One snapshot of the sensor: four measured values and whether they are new.
///
/// The values are carried as the caller's numeric type and never inspected:
/// temperature in degrees Celsius, pressure in hectopascal, relative humidity
/// in percent and gas resistance in ohm.
#[derive(Clone, Copy, Debug)]
pub struct Reading<V> {
    pub temperature: V,
    pub pressure: V,
    pub humidity: V,
    pub gas_resistance: V,
    pub freshness: Freshness,
}

impl<V: Copy> Reading<V> {
    /// The value this reading holds for `kind`.
    pub open spec fn value_spec(&self, kind: FieldKind) -> V {
        match kind {
            FieldKind::Temperature => self.temperature,
            FieldKind::Pressure => self.pressure,
            FieldKind::Humidity => self.humidity,
            FieldKind::GasResistance => self.gas_resistance,
        }
    }

    /// The value this reading holds for `kind`.
    pub fn value_of(&self, kind: FieldKind) -> (r: V)
        ensures
            r == self.value_spec(kind),
    {
        match kind {
            FieldKind::Temperature => self.temperature,
            FieldKind::Pressure => self.pressure,
            FieldKind::Humidity => self.humidity,
            FieldKind::GasResistance => self.gas_resistance,
        }
    }

    /// Whether the values are a new sample.
    pub fn is_new(&self) -> (r: bool)
        ensures
            r == (self.freshness == Freshness::NewData),
    {
        self.freshness == Freshness::NewData
    }
}

} // verus!
