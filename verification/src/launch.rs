//! Start-up decisions: the shared path from the command line, the monitor
//! the bar serves, and the application id it registers under.
use crate::text::{
    after_last, decimal_string, int_decimal, last_segment, law_decimal_roundtrip,
    lemma_after_last_decimal, parse_i32, parsed_i32,
};
use vstd::prelude::*;

verus! {

/// The shared path given on a command line `args` (program name first):
/// the last argument after the program name, or empty when there is none.
pub open spec fn shared_path_of(args: Seq<String>) -> Seq<char> {
    if args.len() >= 2 {
        args.last()@
    } else {
        Seq::empty()
    }
}

/// The shared path from the command line.
pub fn shared_path_from_args(args: &Vec<String>) -> (path: String)
    ensures
        path@ == shared_path_of(args@),
{
    if args.len() >= 2 {
        args[args.len() - 1].clone()
    } else {
        String::new()
    }
}

/// The monitor id derived from a shared path: the number after its last
/// `_`, written as `i32::to_string` writes it, or `0` when that segment is
/// no `i32`.
pub open spec fn monitor_id_of_path(shared_path: Seq<char>) -> Seq<char> {
    match parsed_i32(after_last(shared_path, '_')) {
        Some(id) => int_decimal(id as int),
        None => seq!['0'],
    }
}

/// The monitor id derived from a shared path.
pub fn monitor_id_from_shared_path(shared_path: &str) -> (id: String)
    ensures
        id@ == monitor_id_of_path(shared_path@),
{
    let segment = last_segment(shared_path, '_');
    match parse_i32(segment) {
        Some(id) => decimal_string(id),
        None => {
            proof { reveal_strlit("0"); }
            String::from_str("0")
        },
    }
}

/// The monitor id: the one the environment names, else the one derived
/// from the shared path.
pub open spec fn chosen_monitor_id(env_monitor_id: Option<Seq<char>>, shared_path: Seq<char>) -> Seq<
    char,
> {
    match env_monitor_id {
        Some(id) => id,
        None => monitor_id_of_path(shared_path),
    }
}

/// The monitor the bar serves; `env_monitor_id` is the value of the
/// monitor-id environment variable, if it is set.
pub fn monitor_id(env_monitor_id: Option<String>, shared_path: &str) -> (id: String)
    ensures
        id@ == chosen_monitor_id(
            match env_monitor_id {
                Some(s) => Some(s@),
                None => None,
            },
            shared_path@,
        ),
{
    match env_monitor_id {
        Some(id) => id,
        None => monitor_id_from_shared_path(shared_path),
    }
}

/// The application id of the bar on monitor `monitor_id`.
pub open spec fn application_id_of(monitor_id: Seq<char>) -> Seq<char> {
    "dev.relm.bar.mon"@ + monitor_id
}

/// The application id the bar registers under.
pub fn application_id(monitor_id: &str) -> (id: String)
    ensures
        id@ == application_id_of(monitor_id@),
{
    let mut id = String::from_str("dev.relm.bar.mon");
    id.append(monitor_id);
    id
}


/// A monitor id derived from a shared path derives itself: read as a
/// shared path, it gives the same id back.
pub proof fn law_monitor_id_fixed_point(shared_path: Seq<char>)
    ensures
        monitor_id_of_path(monitor_id_of_path(shared_path)) == monitor_id_of_path(shared_path),
{
    let id = monitor_id_of_path(shared_path);
    let v: i32 = match parsed_i32(after_last(shared_path, '_')) {
        Some(v) => v,
        None => 0,
    };
    assert(int_decimal(0) =~= seq!['0']);
    assert(id == int_decimal(v as int));
    lemma_after_last_decimal(v as int, '_');
    law_decimal_roundtrip(v);
}


/// The derived monitor id names the number after the last `_` of the
/// shared path, or 0 when that segment is no `i32`: read back, it is that
/// number.
pub proof fn law_monitor_id_value(shared_path: Seq<char>)
    ensures
        parsed_i32(monitor_id_of_path(shared_path)) == Some(
            match parsed_i32(after_last(shared_path, '_')) {
                Some(v) => v,
                None => 0i32,
            },
        ),
{
    let v: i32 = match parsed_i32(after_last(shared_path, '_')) {
        Some(v) => v,
        None => 0,
    };
    assert(int_decimal(0) =~= seq!['0']);
    law_decimal_roundtrip(v);
}

/// The environment's monitor id wins over the shared path; the application
/// id is the fixed prefix followed by the monitor id; the shared path is
/// the last argument after the program name, or empty.
pub proof fn law_launch_choices(id: Seq<char>, shared_path: Seq<char>, args: Seq<String>)
    ensures
        chosen_monitor_id(Some(id), shared_path) == id,
        chosen_monitor_id(None, shared_path) == monitor_id_of_path(shared_path),
        application_id_of(id).subrange(0, 16) == "dev.relm.bar.mon"@,
        application_id_of(id).subrange(16, application_id_of(id).len() as int) == id,
        args.len() >= 2 ==> shared_path_of(args) == args[args.len() - 1]@,
        args.len() < 2 ==> shared_path_of(args).len() == 0,
{
    reveal_strlit("dev.relm.bar.mon");
    assert(application_id_of(id).subrange(0, 16) =~= "dev.relm.bar.mon"@);
    assert(application_id_of(id).subrange(16, application_id_of(id).len() as int) =~= id);
}

} // verus!
