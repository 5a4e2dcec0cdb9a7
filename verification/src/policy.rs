//! The mute decision: from the list, the mode, the switch and the foreground
//! process to "mute this session" or "let it sound".
//!
//! A list entry is either a bare process name, which matches whatever the
//! letter case, or an instance qualifier `"<name> [<pid>]"`, which matches one
//! process of that name and is compared as written.

use crate::text::{decimal, lowercase, push_decimal};
use vstd::prelude::*;

verus! {

/// The user's policy: the list, how to read it, and the global switch.
#[derive(Clone, Debug)]
pub struct PolicyConfig {
    /// Bare process names and instance qualifiers. Read as a set: order and
    /// repetition mean nothing.
    pub list: Vec<String>,
    /// `true`: every process but the listed ones is muted in the background.
    /// `false`: the listed ones are.
    pub is_whitelist: bool,
    /// `false` switches the policy off: nothing is muted.
    pub enabled: bool,
}

impl Default for PolicyConfig {
    /// An empty blacklist, switched off.
    fn default() -> (cfg: PolicyConfig)
        ensures
            cfg.list@.len() == 0,
            !cfg.is_whitelist,
            !cfg.enabled,
    {
        PolicyConfig { list: Vec::new(), is_whitelist: false, enabled: false }
    }
}

/// The instance qualifier of process `pid` named `name`: `"<name> [<pid>]"`.
pub open spec fn instance_name(name: Seq<char>, pid: u32) -> Seq<char> {
    name + seq![' ', '['] + decimal(pid as nat) + seq![']']
}

/// Whether one of the strings of `list` reads `text`.
pub open spec fn has_text(list: Seq<String>, text: Seq<char>) -> bool {
    exists|i: int| 0 <= i < list.len() && (#[trigger] list[i])@ == text
}

/// The texts of a list, as a set.
pub open spec fn entry_set(list: Seq<String>) -> Set<Seq<char>> {
    Set::new(|entry: Seq<char>| has_text(list, entry))
}

/// Whether the process is listed: an entry has the lowercase form of its
/// name, or an entry is its instance qualifier.
pub open spec fn is_in_list(entries: Set<Seq<char>>, name: Seq<char>, pid: u32) -> bool {
    ||| exists|entry: Seq<char>| #[trigger]
        entries.contains(entry) && lowercase(entry) == lowercase(name)
    ||| entries.contains(instance_name(name, pid))
}

/// The decision table. With the switch off nothing is muted; the foreground
/// process is never muted; of the others a whitelist mutes the unlisted and a
/// blacklist the listed.
pub open spec fn verdict(
    enabled: bool,
    is_whitelist: bool,
    is_in_list: bool,
    is_foreground: bool,
) -> bool {
    if !enabled {
        false
    } else if is_whitelist {
        !is_in_list && !is_foreground
    } else {
        is_in_list && !is_foreground
    }
}

/// Whether the session of process `pid` named `name` is to be muted.
pub open spec fn should_mute(
    entries: Set<Seq<char>>,
    is_whitelist: bool,
    enabled: bool,
    name: Seq<char>,
    pid: u32,
    foreground_pid: u32,
) -> bool {
    verdict(enabled, is_whitelist, is_in_list(entries, name, pid), pid == foreground_pid)
}

/// Writes the instance qualifier of process `pid` named `name`.
pub fn instance_entry(name: &str, pid: u32) -> (entry: String)
    ensures
        entry@ == instance_name(name@, pid),
{
    let mut entry = name.to_owned();
    entry.push(' ');
    entry.push('[');
    push_decimal(&mut entry, pid as u64);
    entry.push(']');
    entry
}

/// The lowercase form of every entry, in the order of the list.
pub fn lowercase_all(list: &Vec<String>) -> (folded: Vec<String>)
    ensures
        folded@.len() == list@.len(),
        forall|i: int| 0 <= i < list@.len() ==> (#[trigger] folded@[i])@ == lowercase(list@[i]@),
{
    let mut folded: Vec<String> = Vec::new();
    let mut i: usize = 0;
    while i < list.len()
        invariant
            i <= list@.len(),
            folded@.len() == i,
            forall|j: int| 0 <= j < i ==> (#[trigger] folded@[j])@ == lowercase(list@[j]@),
        decreases list@.len() - i,
    {
        folded.push(list[i].to_lowercase());
        i += 1;
    }
    folded
}

/// Whether one of the strings of `list` reads exactly `text`.
pub fn contains_text(list: &Vec<String>, text: &String) -> (found: bool)
    ensures
        found == has_text(list@, text@),
{
    let mut i: usize = 0;
    while i < list.len()
        invariant
            i <= list@.len(),
            forall|j: int| 0 <= j < i ==> (#[trigger] list@[j])@ != text@,
        decreases list@.len() - i,
    {
        if list[i] == *text {
            return true;
        }
        i += 1;
    }
    false
}

/// Applies the decision table.
pub fn decide_verdict(enabled: bool, is_whitelist: bool, is_in_list: bool, is_foreground: bool) -> (mute:
    bool)
    ensures
        mute == verdict(enabled, is_whitelist, is_in_list, is_foreground),
{
    if !enabled {
        false
    } else if is_foreground {
        false
    } else if is_whitelist {
        !is_in_list
    } else {
        is_in_list
    }
}

/// Decides for one process from texts that are already in lowercase form:
/// `folded_list` stands for the lowercase forms of the entries of `list`,
/// `folded_name` for that of `name`. A bare name is looked up among the
/// former, the instance qualifier among the entries as written.
pub fn decide_folded(
    name: &str,
    folded_name: &String,
    pid: u32,
    list: &Vec<String>,
    folded_list: &Vec<String>,
    is_whitelist: bool,
    enabled: bool,
    foreground_pid: u32,
) -> (mute: bool)
    ensures
        mute == verdict(
            enabled,
            is_whitelist,
            has_text(folded_list@, folded_name@) || has_text(list@, instance_name(name@, pid)),
            pid == foreground_pid,
        ),
{
    if !enabled || pid == foreground_pid {
        return false;
    }
    let mut listed = contains_text(folded_list, folded_name);
    if !listed {
        let instance = instance_entry(name, pid);
        listed = contains_text(list, &instance);
    }
    decide_verdict(enabled, is_whitelist, listed, false)
}

/// A lookup among lowercase forms and entries as written is the membership
/// test of the policy, provided the lowercase forms are what they stand for.
pub proof fn lemma_folded_lookup_is_membership(
    list: Seq<String>,
    folded_list: Seq<String>,
    name: Seq<char>,
    folded_name: Seq<char>,
    pid: u32,
)
    requires
        folded_list.len() == list.len(),
        forall|i: int| 0 <= i < list.len() ==> (#[trigger] folded_list[i])@ == lowercase(list[i]@),
        folded_name == lowercase(name),
    ensures
        (has_text(folded_list, folded_name) || has_text(list, instance_name(name, pid)))
            == is_in_list(entry_set(list), name, pid),
{
    let entries = entry_set(list);
    if has_text(folded_list, folded_name) {
        let i = choose|i: int| 0 <= i < folded_list.len() && (#[trigger] folded_list[i])@ == folded_name;
        assert(has_text(list, list[i]@));
        assert(entries.contains(list[i]@) && lowercase(list[i]@) == lowercase(name));
    }
    if exists|entry: Seq<char>| #[trigger]
        entries.contains(entry) && lowercase(entry) == lowercase(name) {
        let entry = choose|entry: Seq<char>| #[trigger]
            entries.contains(entry) && lowercase(entry) == lowercase(name);
        let i = choose|i: int| 0 <= i < list.len() && (#[trigger] list[i])@ == entry;
        assert(folded_list[i]@ == folded_name);
    }
}

/// Decides whether the session of process `pid` named `process_name` is to be
/// muted while process `foreground_pid` owns the focused window.
pub fn decide(process_name: &str, pid: u32, cfg: &PolicyConfig, foreground_pid: u32) -> (mute: bool)
    ensures
        mute == should_mute(
            entry_set(cfg.list@),
            cfg.is_whitelist,
            cfg.enabled,
            process_name@,
            pid,
            foreground_pid,
        ),
        !cfg.enabled ==> !mute,
        pid == foreground_pid ==> !mute,
{
    if !cfg.enabled || pid == foreground_pid {
        return false;
    }
    let folded_list = lowercase_all(&cfg.list);
    let folded_name = process_name.to_lowercase();
    proof {
        lemma_folded_lookup_is_membership(
            cfg.list@,
            folded_list@,
            process_name@,
            folded_name@,
            pid,
        );
    }
    decide_folded(
        process_name,
        &folded_name,
        pid,
        &cfg.list,
        &folded_list,
        cfg.is_whitelist,
        cfg.enabled,
        foreground_pid,
    )
}

/// The global switch: with the policy switched off no session is to be
/// muted, whatever the list, the mode and the foreground.
pub proof fn lemma_disabled_mutes_nothing(
    entries: Set<Seq<char>>,
    is_whitelist: bool,
    name: Seq<char>,
    pid: u32,
    foreground_pid: u32,
)
    ensures
        !should_mute(entries, is_whitelist, false, name, pid, foreground_pid),
{
}

/// The foreground exemption: the process that owns the focused window is
/// never to be muted, in either mode and whatever the list.
pub proof fn lemma_foreground_is_exempt(
    entries: Set<Seq<char>>,
    is_whitelist: bool,
    enabled: bool,
    name: Seq<char>,
    pid: u32,
)
    ensures
        !should_mute(entries, is_whitelist, enabled, name, pid, pid),
{
}

/// The two modes are opposite on every background process: with the switch
/// on, a process that is not in the foreground is muted by exactly one of
/// whitelist and blacklist.
pub proof fn lemma_modes_are_opposite(
    entries: Set<Seq<char>>,
    name: Seq<char>,
    pid: u32,
    foreground_pid: u32,
)
    requires
        pid != foreground_pid,
    ensures
        should_mute(entries, true, true, name, pid, foreground_pid) != should_mute(
            entries,
            false,
            true,
            name,
            pid,
            foreground_pid,
        ),
{
}

} // verus!
