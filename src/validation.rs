use vstd::prelude::*;

verus! {

/// The fixed settings of a rendering context: whether the diagnostics hook is on,
/// the name of the validation layer it needs, and the device extensions every
/// accepted device must offer. Names are byte strings without a terminator.
#[derive(Clone, Debug)]
pub struct Config {
    pub validation_enabled: bool,
    pub validation_layer: Vec<u8>,
    pub device_extensions: Vec<Vec<u8>>,
}

/// Some entry of `names` equals `name`.
pub open spec fn contains_name(names: Seq<Vec<u8>>, name: Seq<u8>) -> bool {
    exists|i: int| 0 <= i < names.len() && names[i]@ == name
}

/// Every entry of `required` is among `available`.
pub open spec fn contains_all_names(available: Seq<Vec<u8>>, required: Seq<Vec<u8>>) -> bool {
    forall|j: int| 0 <= j < required.len() ==> contains_name(available, required[j]@)
}

/// Whether two names are equal byte for byte.
pub fn names_equal(a: &Vec<u8>, b: &Vec<u8>) -> (r: bool)
    ensures
        r == (a@ == b@),
{
    if a.len() != b.len() {
        return false;
    }
    let mut i: usize = 0;
    while i < a.len()
        invariant
            a@.len() == b@.len(),
            i <= a@.len(),
            forall|j: int| 0 <= j < i ==> a@[j] == b@[j],
        decreases a@.len() - i,
    {
        if a[i] != b[i] {
            return false;
        }
        i = i + 1;
    }
    assert(a@ =~= b@);
    true
}

/// Whether `name` is among `names`.
pub fn contains(names: &Vec<Vec<u8>>, name: &Vec<u8>) -> (r: bool)
    ensures
        r == contains_name(names@, name@),
{
    let mut i: usize = 0;
    while i < names.len()
        invariant
            i <= names@.len(),
            forall|j: int| 0 <= j < i ==> names@[j]@ != name@,
        decreases names@.len() - i,
    {
        if names_equal(&names[i], name) {
            return true;
        }
        i = i + 1;
    }
    false
}

/// Whether every entry of `required` is among `available`.
pub fn contains_all(available: &Vec<Vec<u8>>, required: &Vec<Vec<u8>>) -> (r: bool)
    ensures
        r == contains_all_names(available@, required@),
{
    let mut i: usize = 0;
    while i < required.len()
        invariant
            i <= required@.len(),
            forall|j: int| 0 <= j < i ==> contains_name(available@, required@[j]@),
        decreases required@.len() - i,
    {
        if !contains(available, &required[i]) {
            return false;
        }
        i = i + 1;
    }
    true
}

/// The validation layer was asked for but the platform does not offer it.
#[derive(Copy, Clone, Debug, PartialEq, Eq, Structural)]
pub struct ValidationLayerUnavailable;

impl Config {
    /// Checks the configuration against the instance layers the platform offers:
    /// an error exactly when validation is on and its layer is absent.
    pub fn check_layers(&self, available_layers: &Vec<Vec<u8>>) -> (r: Result<
        (),
        ValidationLayerUnavailable,
    >)
        ensures
            r is Err <==> (self.validation_enabled && !contains_name(
                available_layers@,
                self.validation_layer@,
            )),
    {
        if self.validation_enabled && !contains(available_layers, &self.validation_layer) {
            Err(ValidationLayerUnavailable)
        } else {
            Ok(())
        }
    }
}

/// Raw severity bits of the platform's diagnostic messages.
pub const SEVERITY_INFO: u32 = 0x10;

pub const SEVERITY_WARNING: u32 = 0x100;

pub const SEVERITY_ERROR: u32 = 0x1000;

/// The level at which a diagnostic message of the platform is logged.
#[derive(Copy, Clone, Debug, PartialEq, Eq, Structural)]
pub enum MessageLevel {
    Error,
    Warning,
    Debug,
    Trace,
}

pub open spec fn spec_message_level(severity: u32) -> MessageLevel {
    if severity >= SEVERITY_ERROR {
        MessageLevel::Error
    } else if severity >= SEVERITY_WARNING {
        MessageLevel::Warning
    } else if severity >= SEVERITY_INFO {
        MessageLevel::Debug
    } else {
        MessageLevel::Trace
    }
}

/// Maps a message's severity bits to the level it is logged at: the highest
/// threshold the severity reaches.
pub fn message_level(severity: u32) -> (r: MessageLevel)
    ensures
        r == spec_message_level(severity),
{
    if severity >= SEVERITY_ERROR {
        MessageLevel::Error
    } else if severity >= SEVERITY_WARNING {
        MessageLevel::Warning
    } else if severity >= SEVERITY_INFO {
        MessageLevel::Debug
    } else {
        MessageLevel::Trace
    }
}

} // verus!
