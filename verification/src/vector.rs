//! Result vectors: what the engine hands over for one of them, and the
//! owned, typed form in which a simulation keeps it.
//!
//! A sample is held as the bit pattern of its IEEE 754 double-precision
//! number, so that it is kept exactly and can be compared.

use vstd::prelude::*;
use vstd::std_specs::convert::FromSpecImpl;

verus! {

/// The engine's type tag of a time vector.
pub const SV_TIME: u32 = 1;

/// The engine's type tag of a frequency vector.
pub const SV_FREQUENCY: u32 = 2;

/// The engine's type tag of a voltage vector.
pub const SV_VOLTAGE: u32 = 3;

/// The engine's type tag of a current vector.
pub const SV_CURRENT: u32 = 4;

/// The physical quantity that a vector measures.
#[derive(Clone, Copy, Debug, PartialEq, Eq, Structural)]
pub enum DataType {
    Unknown,
    Time,
    Frequency,
    Voltage,
    Current,
}

impl DataType {
    /// The quantity that a type tag stands for. A tag outside the table,
    /// a negative one included, stands for `Unknown`.
    pub open spec fn of_tag(tag: int) -> DataType {
        if tag == SV_TIME {
            DataType::Time
        } else if tag == SV_FREQUENCY {
            DataType::Frequency
        } else if tag == SV_VOLTAGE {
            DataType::Voltage
        } else if tag == SV_CURRENT {
            DataType::Current
        } else {
            DataType::Unknown
        }
    }

    /// Reads a type tag as the engine stores it, a signed integer.
    pub fn from_tag(tag: i32) -> (datatype: DataType)
        ensures
            datatype == DataType::of_tag(tag as int),
    {
        if tag < 0 {
            DataType::Unknown
        } else {
            DataType::from(tag as u32)
        }
    }
}

impl From<u32> for DataType {
    fn from(x: u32) -> (datatype: DataType) {
        if x == SV_TIME {
            DataType::Time
        } else if x == SV_FREQUENCY {
            DataType::Frequency
        } else if x == SV_VOLTAGE {
            DataType::Voltage
        } else if x == SV_CURRENT {
            DataType::Current
        } else {
            DataType::Unknown
        }
    }
}

impl FromSpecImpl<u32> for DataType {
    open spec fn obeys_from_spec() -> bool {
        true
    }

    open spec fn from_spec(x: u32) -> DataType {
        DataType::of_tag(x as int)
    }
}

/// The samples of a vector, of one kind throughout.
#[derive(Debug)]
pub enum VectorValues {
    /// Real samples.
    Real(Vec<u64>),
    /// Complex samples, each a real part and an imaginary part.
    Complex(Vec<(u64, u64)>),
}

/// The samples of a vector as mathematical sequences.
pub ghost enum ValuesModel {
    Real(Seq<u64>),
    Complex(Seq<(u64, u64)>),
}

impl ValuesModel {
    /// How many samples there are.
    pub open spec fn len(self) -> nat {
        match self {
            ValuesModel::Real(samples) => samples.len(),
            ValuesModel::Complex(samples) => samples.len(),
        }
    }
}

impl View for VectorValues {
    type V = ValuesModel;

    open spec fn view(&self) -> ValuesModel {
        match self {
            VectorValues::Real(samples) => ValuesModel::Real(samples@),
            VectorValues::Complex(samples) => ValuesModel::Complex(samples@),
        }
    }
}

impl VectorValues {
    /// How many samples there are.
    pub fn len(&self) -> (n: usize)
        ensures
            n == self@.len(),
    {
        match self {
            VectorValues::Real(samples) => samples.len(),
            VectorValues::Complex(samples) => samples.len(),
        }
    }
}

/// One result vector of a simulation.
#[derive(Debug)]
pub struct VectorInfo {
    pub datatype: DataType,
    pub values: VectorValues,
}

/// One result vector as a mathematical value.
pub ghost struct InfoModel {
    pub datatype: DataType,
    pub values: ValuesModel,
}

impl View for VectorInfo {
    type V = InfoModel;

    open spec fn view(&self) -> InfoModel {
        InfoModel { datatype: self.datatype, values: self.values@ }
    }
}

/// A vector as the engine describes it: its name, its type tag and two
/// payloads, of which the engine fills one. A payload that the engine did
/// not fill is `None`.
#[derive(Debug)]
pub struct RawVector {
    pub name: String,
    pub type_tag: i32,
    pub real: Option<Vec<u64>>,
    pub complex: Option<Vec<(u64, u64)>>,
}

impl RawVector {
    /// The engine filled at least one of the two payloads.
    pub open spec fn has_payload(&self) -> bool {
        self.real is Some || self.complex is Some
    }

    /// The samples that count: the real payload where there is one, else
    /// the complex payload.
    pub open spec fn values(&self) -> ValuesModel
        recommends
            self.has_payload(),
    {
        match self.real {
            Some(samples) => ValuesModel::Real(samples@),
            None => ValuesModel::Complex(self.complex->0@),
        }
    }

    /// The typed vector that this description stands for.
    pub open spec fn info(&self) -> InfoModel
        recommends
            self.has_payload(),
    {
        InfoModel { datatype: DataType::of_tag(self.type_tag as int), values: self.values() }
    }

    /// Tells whether the engine filled at least one payload.
    pub fn is_populated(&self) -> (populated: bool)
        ensures
            populated == self.has_payload(),
    {
        self.real.is_some() || self.complex.is_some()
    }

    /// Turns the description into its name and the typed vector.
    pub fn into_info(self) -> (named: (String, VectorInfo))
        requires
            self.has_payload(),
        ensures
            named.0@ == self.name@,
            named.1@ == self.info(),
    {
        let datatype = DataType::from_tag(self.type_tag);
        let values = match self.real {
            Some(samples) => VectorValues::Real(samples),
            None => VectorValues::Complex(self.complex.unwrap()),
        };
        (self.name, VectorInfo { datatype, values })
    }
}

} // verus!
