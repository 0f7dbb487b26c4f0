//! Resolution of driver entry points by name.
//!
//! The driver offers two tables of functions: one reached through a device,
//! one reached through an instance. Which of the two answers a lookup depends
//! on one thing only: whether the device handle of the lookup is null.

use vstd::prelude::*;
use vstd::string::StringExecFns;

verus! {

/// The driver table that answers a lookup.
#[derive(Clone, Copy, Debug, PartialEq, Eq, Structural)]
pub enum Scope {
    /// The table reached through the instance-level entry point.
    Instance,
    /// The table reached through the device-level entry point.
    Device,
}

/// What a lookup came to: the address of the function, null (zero) when the
/// driver does not offer it, and the diagnostic to log for a miss.
pub struct Resolution {
    pub pointer: usize,
    pub diagnostic: Option<String>,
}

/// The table that answers a lookup with these two handles.
pub open spec fn scope_of(instance: usize, device: usize) -> Scope {
    if device != 0 {
        Scope::Device
    } else {
        Scope::Instance
    }
}

/// The words that open the diagnostic of a miss in a table.
pub open spec fn miss_prefix(scope: Scope) -> Seq<char> {
    match scope {
        Scope::Device => "device proc resolve for "@,
        Scope::Instance => "instance proc resolve for "@,
    }
}

/// The diagnostic of a miss: it names the table and the function.
pub open spec fn miss_message(scope: Scope, name: Seq<char>) -> Seq<char> {
    miss_prefix(scope) + name + " failed"@
}

/// A resolution as a value of the model.
pub struct ResolutionView {
    pub pointer: usize,
    pub diagnostic: Option<Seq<char>>,
}

impl View for Resolution {
    type V = ResolutionView;

    open spec fn view(&self) -> ResolutionView {
        ResolutionView {
            pointer: self.pointer,
            diagnostic: match self.diagnostic {
                Some(text) => Some(text@),
                None => None,
            },
        }
    }
}

/// The resolution that an answer of a driver table comes to: the answer
/// itself, without a diagnostic for a function that was found, with exactly
/// one for a miss.
pub open spec fn outcome(scope: Scope, name: Seq<char>, pointer: usize) -> ResolutionView {
    ResolutionView {
        pointer,
        diagnostic: if pointer != 0 {
            None
        } else {
            Some(miss_message(scope, name))
        },
    }
}

/// The diagnostic of a miss names the function: the name stands in it, whole,
/// between the words that name the table and the closing word, so that two
/// misses in one table have the same diagnostic only for the same name.
pub proof fn lemma_miss_message_names_function(scope: Scope, name: Seq<char>, other: Seq<char>)
    ensures
        miss_message(scope, name).len() == miss_prefix(scope).len() + name.len() + " failed"@.len(),
        miss_message(scope, name).subrange(0, miss_prefix(scope).len() as int) == miss_prefix(
            scope,
        ),
        miss_message(scope, name).subrange(
            miss_prefix(scope).len() as int,
            (miss_prefix(scope).len() + name.len()) as int,
        ) == name,
        miss_message(scope, name) == miss_message(scope, other) ==> name == other,
{
    let prefix = miss_prefix(scope);
    let message = miss_message(scope, name);
    assert(message.subrange(0, prefix.len() as int) =~= prefix);
    assert(message.subrange(prefix.len() as int, (prefix.len() + name.len()) as int) =~= name);
    if message == miss_message(scope, other) {
        let theirs = miss_message(scope, other);
        assert(theirs.len() == prefix.len() + other.len() + " failed"@.len());
        assert(theirs.subrange(prefix.len() as int, (prefix.len() + other.len()) as int) =~= other);
    }
}

/// The diagnostic of a miss tells the table: no miss in the device table
/// reads like a miss in the instance table.
pub proof fn lemma_miss_message_tells_scope(name: Seq<char>, other: Seq<char>)
    ensures
        miss_message(Scope::Device, name) != miss_message(Scope::Instance, other),
{
    reveal_strlit("device proc resolve for ");
    reveal_strlit("instance proc resolve for ");
    assert(miss_message(Scope::Device, name)[0] == 'd');
    assert(miss_message(Scope::Instance, other)[0] == 'i');
}

/// Turns the answer of a driver table into a resolution.
pub fn conclude(scope: Scope, name: &str, pointer: usize) -> (resolution: Resolution)
    ensures
        resolution@ == outcome(scope, name@, pointer),
{
    if pointer != 0 {
        Resolution { pointer, diagnostic: None }
    } else {
        let mut text = match scope {
            Scope::Device => String::from_str("device proc resolve for "),
            Scope::Instance => String::from_str("instance proc resolve for "),
        };
        text.append(name);
        text.append(" failed");
        Resolution { pointer: 0, diagnostic: Some(text) }
    }
}

/// Looks a function up by name.
///
/// `get_device_proc_addr` is the device-level lookup function that was
/// installed, if any; `get_instance_proc_addr` asks the instance-level lookup
/// function of the loader.
///
/// With a device handle that is not null the lookup goes to the device-level
/// function, with that handle, and one must be installed. Nothing is asked of
/// the instance-level function then, so it cannot be called. Otherwise the
/// lookup goes to the instance-level function, with the instance handle, which
/// may itself be null, and no device-level function need be installed. The
/// answer is handed back as it came, and a null answer carries one diagnostic.
pub fn resolve<D, I>(
    get_device_proc_addr: Option<D>,
    get_instance_proc_addr: I,
    name: &str,
    instance: usize,
    device: usize,
) -> (resolution: Resolution) where
    D: FnOnce(usize, &str) -> usize,
    I: FnOnce(usize, &str) -> usize,

    requires
        device != 0 ==> get_device_proc_addr is Some && call_requires(
            get_device_proc_addr->0,
            (device, name),
        ),
        device == 0 ==> call_requires(get_instance_proc_addr, (instance, name)),
    ensures
        device != 0 ==> call_ensures(
            get_device_proc_addr->0,
            (device, name),
            resolution.pointer,
        ),
        device == 0 ==> call_ensures(get_instance_proc_addr, (instance, name), resolution.pointer),
        resolution@ == outcome(scope_of(instance, device), name@, resolution.pointer),
{
    if device != 0 {
        let get_device_proc = get_device_proc_addr.unwrap();
        let pointer: usize = get_device_proc(device, name);
        conclude(Scope::Device, name, pointer)
    } else {
        let pointer: usize = get_instance_proc_addr(instance, name);
        conclude(Scope::Instance, name, pointer)
    }
}

} // verus!
