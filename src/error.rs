//! Failures of a probe, how a failed open is classified, and their messages.
use vstd::prelude::*;

verus! {

/// The kinds of failure that a USB call reports.
#[derive(Clone, Copy, Debug, PartialEq, Eq, Structural)]
pub enum UsbErrorKind {
    Success,
    Io,
    InvalidParam,
    Access,
    NoDevice,
    NotFound,
    Busy,
    Timeout,
    Overflow,
    Pipe,
    Interrupted,
    NoMem,
    NotSupported,
    Other,
}

/// The name of a failure kind, as it is shown in messages.
pub open spec fn kind_name_text(k: UsbErrorKind) -> Seq<char> {
    match k {
        UsbErrorKind::Success => "Success"@,
        UsbErrorKind::Io => "Io"@,
        UsbErrorKind::InvalidParam => "InvalidParam"@,
        UsbErrorKind::Access => "Access"@,
        UsbErrorKind::NoDevice => "NoDevice"@,
        UsbErrorKind::NotFound => "NotFound"@,
        UsbErrorKind::Busy => "Busy"@,
        UsbErrorKind::Timeout => "Timeout"@,
        UsbErrorKind::Overflow => "Overflow"@,
        UsbErrorKind::Pipe => "Pipe"@,
        UsbErrorKind::Interrupted => "Interrupted"@,
        UsbErrorKind::NoMem => "NoMem"@,
        UsbErrorKind::NotSupported => "NotSupported"@,
        UsbErrorKind::Other => "Other"@,
    }
}

impl UsbErrorKind {
    /// The name of this failure kind.
    pub fn name(&self) -> (r: &'static str)
        ensures
            r@ == kind_name_text(*self),
    {
        match self {
            UsbErrorKind::Success => "Success",
            UsbErrorKind::Io => "Io",
            UsbErrorKind::InvalidParam => "InvalidParam",
            UsbErrorKind::Access => "Access",
            UsbErrorKind::NoDevice => "NoDevice",
            UsbErrorKind::NotFound => "NotFound",
            UsbErrorKind::Busy => "Busy",
            UsbErrorKind::Timeout => "Timeout",
            UsbErrorKind::Overflow => "Overflow",
            UsbErrorKind::Pipe => "Pipe",
            UsbErrorKind::Interrupted => "Interrupted",
            UsbErrorKind::NoMem => "NoMem",
            UsbErrorKind::NotSupported => "NotSupported",
            UsbErrorKind::Other => "Other",
        }
    }
}

/// A failed USB call: its kind, and the description that the USB layer
/// gives of it.
#[derive(Debug)]
pub struct UsbError {
    pub kind: UsbErrorKind,
    pub description: String,
}

/// The platform that the probe runs on, which decides the remediation
/// advice attached to some failures.
#[derive(Clone, Copy, Debug, PartialEq, Eq, Structural)]
pub enum Platform {
    Linux,
    Windows,
    Other,
}

/// Advice on how to fix a failure to open the adapter.
#[derive(Clone, Copy, Debug, PartialEq, Eq, Structural)]
pub enum Remedy {
    /// Install a udev rule that grants access to the adapter.
    UdevRule,
    /// Replace the adapter's driver with WinUSB.
    ReplaceDriver,
}

/// The advice attached to a permission failure on `p`, if there is any.
pub open spec fn access_remedy(p: Platform) -> Option<Remedy> {
    if p == Platform::Linux {
        Some(Remedy::UdevRule)
    } else {
        None
    }
}

/// The advice attached to an unsupported-operation failure on `p`, if there
/// is any.
pub open spec fn driver_remedy(p: Platform) -> Option<Remedy> {
    if p == Platform::Windows {
        Some(Remedy::ReplaceDriver)
    } else {
        None
    }
}

/// Text of the advice for a permission failure.
pub const UDEV_RULE_TEXT: &'static str = r#":
You need to set a udev rule so that the adapter can be accessed.
To fix this on most Linux distributions, run the following command and then restart your computer.
echo 'SUBSYSTEM=="usb", ENV{DEVTYPE}=="usb_device", ATTRS{idVendor}=="057e", ATTRS{idProduct}=="0337", TAG+="uaccess"' | sudo tee /etc/udev/rules.d/51-gcadapter.rules"#;

/// Text of the advice for a missing driver.
pub const REPLACE_DRIVER_TEXT: &'static str = r#":
To use your GC adapter you must:
1. Download and run Zadig: http://zadig.akeo.ie/
2. Options -> List all devices
3. In the pulldown menu, Select WUP-028
4. On the right ensure WinUSB is selected
5. Select Replace Driver
6. Select yes in the dialog box
7. Restart your computer"#;

/// The text of an optional piece of advice; empty where there is none.
pub open spec fn remedy_text(r: Option<Remedy>) -> Seq<char> {
    match r {
        Some(Remedy::UdevRule) => UDEV_RULE_TEXT@,
        Some(Remedy::ReplaceDriver) => REPLACE_DRIVER_TEXT@,
        None => Seq::empty(),
    }
}

impl Platform {
    /// Whether the console is kept open after the probe ends, so that its
    /// output stays readable when the program was started from a window.
    pub fn holds_console(&self) -> (r: bool)
        ensures
            r == (*self == Platform::Windows),
    {
        match self {
            Platform::Windows => true,
            _ => false,
        }
    }
}

/// Why a probe failed.
#[derive(Debug)]
pub enum ProbeError {
    /// The USB layer could not be initialised.
    ContextError(UsbError),
    /// The attached devices could not be listed.
    EnumerationError(UsbError),
    /// No attached device is the adapter.
    DeviceNotFound,
    /// The adapter could not be opened for want of permission.
    PermissionError { remedy: Option<Remedy> },
    /// The adapter could not be opened because the operation is not
    /// supported, usually for want of a suitable driver.
    DriverError { remedy: Option<Remedy> },
    /// The adapter could not be opened for another reason.
    OpenError(UsbError),
    /// The kernel driver bound to the adapter could not be detached.
    DetachError(UsbError),
    /// The adapter's interface could not be claimed.
    ClaimError(UsbError),
    /// The activation command could not be written.
    InitError(UsbError),
    /// A status report could not be read.
    ReadError(UsbError),
}

/// How a failure to open the adapter is reported on platform `p`.
pub open spec fn open_failure(e: UsbError, p: Platform) -> ProbeError {
    match e.kind {
        UsbErrorKind::Access => ProbeError::PermissionError { remedy: access_remedy(p) },
        UsbErrorKind::NotSupported => ProbeError::DriverError { remedy: driver_remedy(p) },
        _ => ProbeError::OpenError(e),
    }
}

/// Classifies a failure to open the adapter: a permission denial and an
/// unsupported operation carry the advice that `platform` has for them;
/// any other failure is reported with its cause.
pub fn classify_open_error(e: UsbError, platform: Platform) -> (r: ProbeError)
    ensures
        r == open_failure(e, platform),
{
    match e.kind {
        UsbErrorKind::Access => {
            let remedy = match platform {
                Platform::Linux => Some(Remedy::UdevRule),
                _ => None,
            };
            ProbeError::PermissionError { remedy }
        },
        UsbErrorKind::NotSupported => {
            let remedy = match platform {
                Platform::Windows => Some(Remedy::ReplaceDriver),
                _ => None,
            };
            ProbeError::DriverError { remedy }
        },
        _ => ProbeError::OpenError(e),
    }
}

/// A permission failure carries the udev advice on Linux, and no advice on
/// any other platform.
pub proof fn lemma_permission_advice(e: UsbError, p: Platform)
    requires
        e.kind == UsbErrorKind::Access,
    ensures
        open_failure(e, p) is PermissionError,
        message_text(open_failure(e, p)) == if p == Platform::Linux {
            "Permissions error"@ + UDEV_RULE_TEXT@
        } else {
            "Permissions error"@
        },
{
    assert("Permissions error"@ + Seq::<char>::empty() =~= "Permissions error"@);
}

/// An unsupported-operation failure carries the driver advice on Windows,
/// and no advice on any other platform.
pub proof fn lemma_driver_advice(e: UsbError, p: Platform)
    requires
        e.kind == UsbErrorKind::NotSupported,
    ensures
        open_failure(e, p) is DriverError,
        message_text(open_failure(e, p)) == if p == Platform::Windows {
            "Not supported error"@ + REPLACE_DRIVER_TEXT@
        } else {
            "Not supported error"@
        },
{
    assert("Not supported error"@ + Seq::<char>::empty() =~= "Not supported error"@);
}

/// The message that reports `e`.
pub open spec fn message_text(e: ProbeError) -> Seq<char> {
    match e {
        ProbeError::ContextError(c) => "Failed to create libusb context: "@ + c.description@,
        ProbeError::EnumerationError(c) => "Failed to create libusb devices: "@ + c.description@,
        ProbeError::DeviceNotFound => "No GC adapter found"@,
        ProbeError::PermissionError { remedy } => "Permissions error"@ + remedy_text(remedy),
        ProbeError::DriverError { remedy } => "Not supported error"@ + remedy_text(remedy),
        ProbeError::OpenError(c) => "Failed to open handle: "@ + kind_name_text(c.kind),
        ProbeError::DetachError(c) => "Failed to detach kernel driver: "@ + c.description@,
        ProbeError::ClaimError(c) => "Failed to claim interface on GC adapter: "@
            + c.description@,
        ProbeError::InitError(c) => "Failed to initialize GC adapter: "@ + c.description@,
        ProbeError::ReadError(c) => "Failed to read data from GC adapter: "@ + c.description@,
    }
}

/// Appends the text of an optional piece of advice to `s`.
fn push_remedy(s: &mut String, remedy: Option<Remedy>)
    ensures
        final(s)@ == old(s)@ + remedy_text(remedy),
{
    match remedy {
        Some(Remedy::UdevRule) => s.append(UDEV_RULE_TEXT),
        Some(Remedy::ReplaceDriver) => s.append(REPLACE_DRIVER_TEXT),
        None => {
            assert(old(s)@ + remedy_text(remedy) =~= old(s)@);
        },
    }
}

impl ProbeError {
    /// The message that reports this failure.
    pub fn message(&self) -> (r: String)
        ensures
            r@ == message_text(*self),
    {
        match self {
            ProbeError::ContextError(c) => String::from_str(
                "Failed to create libusb context: ",
            ).concat(c.description.as_str()),
            ProbeError::EnumerationError(c) => String::from_str(
                "Failed to create libusb devices: ",
            ).concat(c.description.as_str()),
            ProbeError::DeviceNotFound => String::from_str("No GC adapter found"),
            ProbeError::PermissionError { remedy } => {
                let mut s = String::from_str("Permissions error");
                push_remedy(&mut s, *remedy);
                s
            },
            ProbeError::DriverError { remedy } => {
                let mut s = String::from_str("Not supported error");
                push_remedy(&mut s, *remedy);
                s
            },
            ProbeError::OpenError(c) => String::from_str("Failed to open handle: ").concat(
                c.kind.name(),
            ),
            ProbeError::DetachError(c) => String::from_str(
                "Failed to detach kernel driver: ",
            ).concat(c.description.as_str()),
            ProbeError::ClaimError(c) => String::from_str(
                "Failed to claim interface on GC adapter: ",
            ).concat(c.description.as_str()),
            ProbeError::InitError(c) => String::from_str(
                "Failed to initialize GC adapter: ",
            ).concat(c.description.as_str()),
            ProbeError::ReadError(c) => String::from_str(
                "Failed to read data from GC adapter: ",
            ).concat(c.description.as_str()),
        }
    }
}

} // verus!
