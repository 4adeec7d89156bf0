//! Terminal and interface metadata.
use vstd::prelude::*;

use crate::error::{PartsError, PartsResult};
use crate::exact::{strict_comparison, Comparison, ExactValue};
use crate::identity::TerminalId;
use crate::predicate::{closed_intervals_overlap, compare, spec_closed_overlap};

verus! {

/// Aspect of a part, such as package, symbol, body, tool head, or material region.
#[derive(Debug, PartialEq, Eq)]
pub struct PartAspect {
    /// Aspect handle.
    pub handle: String,
    /// Aspect kind.
    pub kind: AspectKind,
}

/// Part-aspect family.
#[derive(Debug, PartialEq, Eq)]
pub enum AspectKind {
    /// EDA symbol aspect.
    Symbol,
    /// Footprint/package aspect.
    Package,
    /// Mechanical body aspect.
    Body,
    /// Electrical interface aspect.
    Electrical,
    /// Thermal interface aspect.
    Thermal,
    /// Tool/process aspect.
    Tool,
    /// Source-specific aspect.
    Custom(String),
}

/// Electrical polarity class used by safe-connection queries.
#[derive(Clone, Copy, Debug, PartialEq, Eq, Structural)]
pub enum ElectricalPolarity {
    /// Ground or common return.
    Ground,
    /// Positive or negative supply rail.
    Power,
    /// Signal terminal.
    Signal,
    /// Passive or mechanically constrained terminal.
    Passive,
    /// Source did not specify polarity.
    Unknown,
}

/// Interface family for a group of terminals.
#[derive(Debug, PartialEq, Eq)]
pub enum InterfaceKind {
    /// PCB symbol/footprint electrical interface.
    Electrical,
    /// Mechanical mating interface.
    Mechanical,
    /// Fluidic interface.
    Fluid,
    /// Optical interface.
    Optical,
    /// Custom source-specific interface kind.
    Custom(String),
}

/// Exact voltage envelope for electrical terminals.
#[derive(Debug, PartialEq)]
pub struct VoltageEnvelope {
    /// Minimum supported voltage.
    pub min: ExactValue,
    /// Maximum supported voltage.
    pub max: ExactValue,
}

/// A named terminal on a variant.
#[derive(Debug, PartialEq)]
pub struct Terminal {
    id: TerminalId,
    name: String,
    polarity: ElectricalPolarity,
    voltage: Option<VoltageEnvelope>,
}

/// A grouped interface on a variant.
#[derive(Clone, Debug, PartialEq)]
pub struct Interface {
    name: String,
    kind: InterfaceKind,
    terminals: Vec<TerminalId>,
}

/// Port on an interface.
#[derive(Clone, Debug, PartialEq, Eq)]
pub struct Port {
    /// Port handle.
    pub handle: String,
    /// Terminal ids exposed by this port.
    pub terminals: Vec<TerminalId>,
}

/// Semantic role of a terminal.
#[derive(Clone, Debug, PartialEq, Eq)]
pub enum TerminalRole {
    /// Package pin.
    Pin,
    /// PCB pad.
    Pad,
    /// Lead or wire.
    Lead,
    /// Mounting/mechanical terminal.
    Mounting,
    /// Thermal pad or sink.
    Thermal,
    /// Source-specific role.
    Custom(String),
}

/// Package pin metadata.
#[derive(Clone, Debug, PartialEq, Eq)]
pub struct Pin {
    /// Pin terminal id.
    pub terminal: TerminalId,
    /// Pin number/name.
    pub name: String,
}

/// Footprint pad metadata.
#[derive(Clone, Debug, PartialEq, Eq)]
pub struct Pad {
    /// Pad terminal id.
    pub terminal: TerminalId,
    /// Pad number/name.
    pub name: String,
}

/// Lead metadata.
#[derive(Clone, Debug, PartialEq, Eq)]
pub struct Lead {
    /// Lead terminal id.
    pub terminal: TerminalId,
    /// Lead description.
    pub description: String,
}

/// Mounting hole metadata.
#[derive(Clone, Debug, PartialEq, Eq)]
pub struct Hole {
    /// Hole handle.
    pub handle: String,
    /// Grid or drill descriptor.
    pub descriptor: String,
}

/// Mounting feature metadata.
#[derive(Clone, Debug, PartialEq, Eq)]
pub struct MountingFeature {
    /// Feature handle.
    pub handle: String,
    /// Feature descriptor.
    pub descriptor: String,
}

/// Material region handle.
#[derive(Clone, Debug, PartialEq, Eq)]
pub struct MaterialRegion {
    /// Region handle owned by a downstream crate or importer.
    pub handle: String,
    /// Material label or requirement.
    pub material: String,
}

/// Reference designator class.
#[derive(Clone, Debug, PartialEq, Eq)]
pub enum ReferenceDesignatorClass {
    /// Resistor.
    R,
    /// Capacitor.
    C,
    /// Inductor.
    L,
    /// Diode.
    D,
    /// Integrated circuit.
    U,
    /// Connector.
    J,
    /// Mechanical part.
    M,
    /// Source-specific prefix.
    Custom(String),
}

impl Clone for AspectKind {
    fn clone(&self) -> (r: Self)
        ensures
            r == *self,
    {
        match self {
            AspectKind::Symbol => AspectKind::Symbol,
            AspectKind::Package => AspectKind::Package,
            AspectKind::Body => AspectKind::Body,
            AspectKind::Electrical => AspectKind::Electrical,
            AspectKind::Thermal => AspectKind::Thermal,
            AspectKind::Tool => AspectKind::Tool,
            AspectKind::Custom(s) => AspectKind::Custom(s.clone()),
        }
    }
}

impl Clone for PartAspect {
    fn clone(&self) -> (r: Self)
        ensures
            r == *self,
    {
        PartAspect { handle: self.handle.clone(), kind: self.kind.clone() }
    }
}

impl Clone for InterfaceKind {
    fn clone(&self) -> (r: Self)
        ensures
            r == *self,
    {
        match self {
            InterfaceKind::Electrical => InterfaceKind::Electrical,
            InterfaceKind::Mechanical => InterfaceKind::Mechanical,
            InterfaceKind::Fluid => InterfaceKind::Fluid,
            InterfaceKind::Optical => InterfaceKind::Optical,
            InterfaceKind::Custom(s) => InterfaceKind::Custom(s.clone()),
        }
    }
}

impl Clone for VoltageEnvelope {
    fn clone(&self) -> (r: Self)
        ensures
            r == *self,
    {
        VoltageEnvelope { min: self.min.clone(), max: self.max.clone() }
    }
}

impl PartAspect {
    /// Creates a part aspect.
    pub fn new(handle: &str, kind: AspectKind) -> (r: Self)
        ensures
            r.handle@ == handle@,
            r.kind == kind,
    {
        PartAspect { handle: String::from_str(handle), kind }
    }
}

impl VoltageEnvelope {
    /// Creates an exact voltage envelope after certifying `min <= max`;
    /// an undecidable or reversed order is `InvalidVoltageEnvelope`.
    pub fn new(min: ExactValue, max: ExactValue) -> (r: PartsResult<Self>)
        ensures
            match strict_comparison(min@, max@) {
                Some(Comparison::Less) | Some(Comparison::Equal) => r == Ok::<Self, PartsError>(
                    VoltageEnvelope { min, max },
                ),
                _ => r == Err::<Self, PartsError>(PartsError::InvalidVoltageEnvelope),
            },
    {
        match compare(&min, &max) {
            Some(Comparison::Less) | Some(Comparison::Equal) => Ok(VoltageEnvelope { min, max }),
            _ => Err(PartsError::InvalidVoltageEnvelope),
        }
    }

    /// Whether two certified envelopes overlap; `None` when undecided.
    pub fn overlaps(&self, other: &Self) -> (r: Option<bool>)
        ensures
            r == spec_closed_overlap(self.min@, self.max@, other.min@, other.max@),
    {
        closed_intervals_overlap(&self.min, &self.max, &other.min, &other.max)
    }
}

impl Clone for Terminal {
    fn clone(&self) -> (r: Self)
        ensures
            r == *self,
    {
        let voltage = match &self.voltage {
            Some(v) => Some(v.clone()),
            None => None,
        };
        Terminal {
            id: self.id.clone(),
            name: self.name.clone(),
            polarity: self.polarity,
            voltage,
        }
    }
}

impl Terminal {
    /// The terminal id.
    pub closed spec fn spec_id(&self) -> TerminalId {
        self.id
    }

    /// The display name.
    pub closed spec fn spec_name(&self) -> Seq<char> {
        self.name@
    }

    /// The polarity classification.
    pub closed spec fn spec_polarity(&self) -> ElectricalPolarity {
        self.polarity
    }

    /// The voltage envelope, if known.
    pub closed spec fn spec_voltage(&self) -> Option<VoltageEnvelope> {
        self.voltage
    }

    /// Creates a terminal with optional voltage metadata.
    pub fn new(
        id: TerminalId,
        name: &str,
        polarity: ElectricalPolarity,
        voltage: Option<VoltageEnvelope>,
    ) -> (r: Self)
        ensures
            r.spec_id() == id,
            r.spec_name() == name@,
            r.spec_polarity() == polarity,
            r.spec_voltage() == voltage,
    {
        Terminal { id, name: String::from_str(name), polarity, voltage }
    }

    /// Returns the terminal id.
    pub fn id(&self) -> (r: &TerminalId)
        ensures
            *r == self.spec_id(),
    {
        &self.id
    }

    /// Returns the display name.
    pub fn name(&self) -> (r: &str)
        ensures
            r@ == self.spec_name(),
    {
        self.name.as_str()
    }

    /// Returns the polarity classification.
    pub fn polarity(&self) -> (r: ElectricalPolarity)
        ensures
            r == self.spec_polarity(),
    {
        self.polarity
    }

    /// Returns the voltage envelope, if known.
    pub fn voltage(&self) -> (r: Option<&VoltageEnvelope>)
        ensures
            match self.spec_voltage() {
                Some(v) => r == Some(&v),
                None => r is None,
            },
    {
        self.voltage.as_ref()
    }
}

impl Interface {
    /// The interface name.
    pub closed spec fn spec_name(&self) -> Seq<char> {
        self.name@
    }

    /// The interface kind.
    pub closed spec fn spec_kind(&self) -> InterfaceKind {
        self.kind
    }

    /// The terminal ids in this interface.
    pub closed spec fn spec_terminals(&self) -> Seq<TerminalId> {
        self.terminals@
    }

    /// Creates an interface with terminal ids.
    pub fn new(name: &str, kind: InterfaceKind, terminals: Vec<TerminalId>) -> (r: Self)
        ensures
            r.spec_name() == name@,
            r.spec_kind() == kind,
            r.spec_terminals() == terminals@,
    {
        Interface { name: String::from_str(name), kind, terminals }
    }

    /// Returns the interface name.
    pub fn name(&self) -> (r: &str)
        ensures
            r@ == self.spec_name(),
    {
        self.name.as_str()
    }

    /// Returns the interface kind.
    pub fn kind(&self) -> (r: &InterfaceKind)
        ensures
            *r == self.spec_kind(),
    {
        &self.kind
    }

    /// Returns terminal ids in this interface.
    pub fn terminals(&self) -> (r: &[TerminalId])
        ensures
            r@ == self.spec_terminals(),
    {
        self.terminals.as_slice()
    }
}

} // verus!
