//! Finding the input device to read: by its path, or by the name that it
//! reports among the event nodes of the input directory.
use crate::ini::opt_view;
use crate::text::{starts_with, str_eq};
use vstd::prelude::*;
use vstd::string::StringExecFns;

verus! {

/// Where the input device is to be found.
pub struct InputHandler {
    device_name: Option<String>,
    device_path: Option<String>,
    grab: bool,
}

/// How to find the device: open the node at a path (waiting for it to
/// appear), or look among the event nodes for one that reports a name.
#[derive(Debug)]
pub enum DeviceTarget {
    Path(String),
    Name(String),
}

/// The message when neither a device name nor a path was given.
pub open spec fn no_target_message() -> Seq<char> {
    "No device name or path specified"@
}

impl InputHandler {
    /// The name of the device to look for.
    pub closed spec fn spec_device_name(&self) -> Option<Seq<char>> {
        opt_view(self.device_name)
    }

    /// The path of the device node to open.
    pub closed spec fn spec_device_path(&self) -> Option<Seq<char>> {
        opt_view(self.device_path)
    }

    /// Whether to take exclusive access to the device.
    pub closed spec fn spec_grab(&self) -> bool {
        self.grab
    }

    pub fn new(device_name: Option<String>, device_path: Option<String>, grab: bool) -> (h: Self)
        ensures
            h.spec_device_name() == opt_view(device_name),
            h.spec_device_path() == opt_view(device_path),
            h.spec_grab() == grab,
    {
        Self { device_name, device_path, grab }
    }

    /// Whether to take exclusive access to the device once it is open.
    pub fn grab(&self) -> (r: bool)
        ensures
            r == self.spec_grab(),
    {
        self.grab
    }

    /// How to find the device: a path, when one is given, comes before a
    /// name; with neither there is nothing to open.
    pub fn device_target(&self) -> (r: Result<DeviceTarget, String>)
        ensures
            match self.spec_device_path() {
                Some(p) => r matches Ok(DeviceTarget::Path(q)) && q@ == p,
                None => match self.spec_device_name() {
                    Some(n) => r matches Ok(DeviceTarget::Name(q)) && q@ == n,
                    None => r matches Err(e) && e@ == no_target_message(),
                },
            },
    {
        if let Some(path) = &self.device_path {
            return Ok(DeviceTarget::Path(path.clone()));
        }
        match &self.device_name {
            Some(name) => Ok(DeviceTarget::Name(name.clone())),
            None => Err(String::from_str("No device name or path specified")),
        }
    }
}

/// Whether a file of the input directory is an event node, one whose name
/// begins with `event`.
pub fn is_event_node(file_name: &str) -> (r: bool)
    ensures
        r == "event"@.is_prefix_of(file_name@),
{
    starts_with(file_name, "event")
}

/// Whether the node `created` in the input directory is the awaited one,
/// whose file name is `target_file_name`.
pub fn is_awaited_node(created: &str, target_file_name: &str) -> (r: bool)
    ensures
        r == (created@ == target_file_name@),
{
    str_eq(created, target_file_name)
}

/// The name that a device reports, the empty one where it reports none.
pub open spec fn reported_name(reported: Option<&str>) -> Seq<char> {
    match reported {
        Some(n) => n@,
        None => Seq::empty(),
    }
}

/// A device that reports a name is the wanted one exactly when its whole
/// name, whatever its length, equals the wanted name; a device that reports
/// none is the wanted one exactly when the wanted name is empty.
pub proof fn lemma_wanted_device_by_whole_name(n: &str, wanted: Seq<char>)
    ensures
        (reported_name(Some(n)) == wanted) <==> (n@ == wanted),
        (reported_name(None) == wanted) <==> (wanted.len() == 0),
{
    assert(wanted.len() == 0 ==> wanted =~= Seq::<char>::empty());
}

/// Whether a device that reports the name `reported` (a device may report
/// none, which counts as the empty name) is the one looked for.
pub fn is_wanted_device(reported: Option<&str>, wanted: &str) -> (r: bool)
    ensures
        r == (reported_name(reported) == wanted@),
        reported is Some ==> (r <==> reported.unwrap()@ == wanted@),
        reported is None ==> (r <==> wanted@.len() == 0),
{
    match reported {
        Some(n) => {
            str_eq(n, wanted)
        },
        None => {
            proof {
                reveal_strlit("");
            }
            let r = str_eq("", wanted);
            assert(""@ =~= Seq::<char>::empty());
            assert(wanted@.len() == 0 ==> wanted@ =~= Seq::<char>::empty());
            r
        },
    }
}

} // verus!
