//! Versions of managed and self-hosted services: which versions are
//! supported, and which one a requested version stands for.

use crate::errors::{CommandError, CommandErrorView};
use crate::events::{opt_text, EventDetails, Level};
use crate::notice::{safe_log, Notice, NoticeView};
use crate::text::{decimal, decimal_text, occurs_in, removed, split, split_on, texts, without};
use vstd::prelude::*;
use vstd::string::*;

verus! {

/// What a list of pairs maps each requested version to: a later pair
/// replaces an earlier one with the same requested version.
pub open spec fn table_of(entries: Seq<(String, String)>) -> Map<Seq<char>, Seq<char>>
    decreases entries.len(),
{
    if entries.len() == 0 {
        Map::empty()
    } else {
        table_of(entries.drop_last()).insert(entries.last().0@, entries.last().1@)
    }
}

/// The supported versions of a service: from each version that can be
/// requested to the version that is then deployed.
#[derive(Debug)]
pub struct VersionTable {
    entries: Vec<(String, String)>,
}

impl View for VersionTable {
    type V = Map<Seq<char>, Seq<char>>;

    closed spec fn view(&self) -> Map<Seq<char>, Seq<char>> {
        table_of(self.entries@)
    }
}

impl VersionTable {
    /// A table without versions.
    pub fn new() -> (r: Self)
        ensures
            r@ == Map::<Seq<char>, Seq<char>>::empty(),
    {
        VersionTable { entries: Vec::new() }
    }

    /// Lets `requested` stand for `deployed`, whatever it stood for before.
    pub fn insert(&mut self, requested: String, deployed: String)
        ensures
            final(self)@ == old(self)@.insert(requested@, deployed@),
    {
        let ghost before = self.entries@;
        self.entries.push((requested, deployed));
        assert(self.entries@.drop_last() =~= before);
    }

    /// The version that `requested` stands for, where it is supported.
    #[verifier::rlimit(40)]
    pub fn get(&self, requested: &str) -> (r: Option<&String>)
        ensures
            r is Some == self@.contains_key(requested@),
            r is Some ==> r->0@ == self@[requested@],
    {
        let mut i: usize = self.entries.len();
        assert(self.entries@.take(i as int) =~= self.entries@);
        while i > 0
            invariant
                i <= self.entries.len(),
                table_of(self.entries@).contains_key(requested@) == table_of(
                    self.entries@.take(i as int),
                ).contains_key(requested@),
                table_of(self.entries@).contains_key(requested@) ==> table_of(self.entries@)[requested@]
                    == table_of(self.entries@.take(i as int))[requested@],
            decreases i,
        {
            proof {
                assert(self.entries@.take(i as int).drop_last() =~= self.entries@.take(i - 1));
            }
            i = i - 1;
            if *self.entries[i].0.as_str() == *requested {
                return Some(&self.entries[i].1);
            }
        }
        None
    }
}

/// A version number in its parts: the major number, and the minor and the
/// patch number where the version has them.
#[derive(Debug)]
pub struct VersionsNumber {
    pub major: String,
    pub minor: Option<String>,
    pub patch: Option<String>,
}

pub struct VersionsNumberView {
    pub major: Seq<char>,
    pub minor: Option<Seq<char>>,
    pub patch: Option<Seq<char>>,
}

impl View for VersionsNumber {
    type V = VersionsNumberView;

    open spec fn view(&self) -> VersionsNumberView {
        VersionsNumberView {
            major: self.major@,
            minor: opt_text(self.minor),
            patch: opt_text(self.patch),
        }
    }
}

/// The parts of a version: what stands between its dots. The major number is
/// the first part without the letter `v`, the minor number the second
/// without `+`, and the patch number the third.
pub open spec fn version_parts(version: Seq<char>) -> VersionsNumberView {
    let parts = split(version, '.');
    VersionsNumberView {
        major: without(parts[0], 'v'),
        minor: if parts.len() > 1 {
            Some(without(parts[1], '+'))
        } else {
            None
        },
        patch: if parts.len() > 2 {
            Some(parts[2])
        } else {
            None
        },
    }
}

impl VersionsNumber {
    /// The parts of `version`.
    pub fn parse(version: &str) -> (r: VersionsNumber)
        ensures
            r@ == version_parts(version@),
    {
        let parts = split_on(version, '.');
        assert(texts(parts@).len() == parts@.len());
        assert(parts@.len() >= 1) by {
            reveal_with_fuel(split, 2);
        }
        assert(texts(parts@)[0] == parts@[0]@);
        let major = removed(parts[0].as_str(), 'v');
        let minor = if parts.len() > 1 {
            assert(texts(parts@)[1] == parts@[1]@);
            Some(removed(parts[1].as_str(), '+'))
        } else {
            None
        };
        let patch = if parts.len() > 2 {
            assert(texts(parts@)[2] == parts@[2]@);
            Some(parts[2].clone())
        } else {
            None
        };
        VersionsNumber { major, minor, patch }
    }
}

/// The version as it is looked up: the parts that it has, with dots between
/// them.
pub open spec fn lookup_key(v: VersionsNumberView) -> Seq<char> {
    match (v.minor, v.patch) {
        (Some(minor), Some(patch)) => v.major + "."@ + minor + "."@ + patch,
        (Some(minor), None) => v.major + "."@ + minor,
        _ => v.major,
    }
}

/// The message for a version that is not supported.
pub open spec fn not_supported(database_name: Seq<char>, version: Seq<char>) -> CommandErrorView {
    CommandErrorView {
        message: database_name + " "@ + version + " version is not supported"@,
        message_safe: Some(database_name + " "@ + version + " version is not supported"@),
    }
}

/// The version to deploy for a requested version: what the table holds for
/// it, looked up by as many parts as the request has; an error that names the
/// service and the request where the table holds nothing for it.
pub open spec fn spec_supported_version(
    database_name: Seq<char>,
    table: Map<Seq<char>, Seq<char>>,
    version_to_check: Seq<char>,
) -> Result<Seq<char>, CommandErrorView> {
    let key = lookup_key(version_parts(version_to_check));
    if table.contains_key(key) {
        Ok(table[key])
    } else {
        Err(not_supported(database_name, version_to_check))
    }
}

/// Whether `r` is `expected`, content for content.
pub open spec fn version_result_is(
    r: Result<String, CommandError>,
    expected: Result<Seq<char>, CommandErrorView>,
) -> bool {
    match (r, expected) {
        (Ok(v), Ok(e)) => v@ == e,
        (Err(v), Err(e)) => v@ == e,
        _ => false,
    }
}

/// The version to deploy where `version_to_check` is requested of the
/// service `database_name`, whose supported versions are in the table.
#[verifier::rlimit(40)]
pub fn get_supported_version_to_use(
    database_name: &str,
    all_supported_versions: &VersionTable,
    version_to_check: &str,
) -> (r: Result<String, CommandError>)
    ensures
        version_result_is(
            r,
            spec_supported_version(database_name@, all_supported_versions@, version_to_check@),
        ),
{
    let version = VersionsNumber::parse(version_to_check);
    let mut key = version.major.clone();
    match &version.minor {
        Some(minor) => {
            key.append(".");
            key.append(minor.as_str());
            match &version.patch {
                Some(patch) => {
                    key.append(".");
                    key.append(patch.as_str());
                },
                None => {},
            }
        },
        None => {
            assert(version@.patch is None) by {
                reveal_with_fuel(split, 2);
            }
        },
    }
    assert(key@ == lookup_key(version_parts(version_to_check@)));
    match all_supported_versions.get(key.as_str()) {
        Some(found) => Ok(found.clone()),
        None => {
            let mut message = String::from_str(database_name);
            message.append(" ");
            message.append(version_to_check);
            message.append(" version is not supported");
            Err(CommandError::new_from_safe_message(message))
        },
    }
}

/// The version `major.minor.patch`.
pub open spec fn full_version(major: u32, minor: u32, patch: u32) -> Seq<char> {
    decimal(major as nat) + "."@ + decimal(minor as nat) + "."@ + decimal(patch as nat)
}

/// The version `major.minor`.
pub open spec fn short_version(major: u32, minor: u32) -> Seq<char> {
    decimal(major as nat) + "."@ + decimal(minor as nat)
}

fn full_version_text(major: u32, minor: u32, patch: u32) -> (r: String)
    ensures
        r@ == full_version(major, minor, patch),
{
    let mut out = decimal_text(major as u64);
    out.append(".");
    out.append(decimal_text(minor as u64).as_str());
    out.append(".");
    out.append(decimal_text(patch as u64).as_str());
    out
}

/// The table `table` with every patch version `major.minor.p`, for `p` from
/// `from` to below `until`, standing for itself.
pub open spec fn with_patches(
    table: Map<Seq<char>, Seq<char>>,
    major: u32,
    minor: u32,
    from: u32,
    until: int,
) -> Map<Seq<char>, Seq<char>>
    decreases until - from,
{
    if until <= from {
        table
    } else {
        with_patches(table, major, minor, from, until - 1).insert(
            full_version(major, minor, (until - 1) as u32),
            full_version(major, minor, (until - 1) as u32),
        )
    }
}

/// The supported versions of one minor line of a service whose patch
/// versions run from `first_patch` to `last_patch`: each patch version stands
/// for itself, and the minor version and the major version stand for the last
/// patch version.
pub open spec fn minor_line(
    table: Map<Seq<char>, Seq<char>>,
    major: u32,
    minor: u32,
    first_patch: u32,
    last_patch: u32,
) -> Map<Seq<char>, Seq<char>> {
    with_patches(
        table.insert(short_version(major, minor), full_version(major, minor, last_patch)),
        major,
        minor,
        first_patch,
        last_patch + 1,
    ).insert(decimal(major as nat), full_version(major, minor, last_patch))
}

/// Adds the supported versions of one minor line to `table`.
#[verifier::rlimit(40)]
pub fn add_minor_line(
    table: &mut VersionTable,
    major: u32,
    minor: u32,
    first_patch: u32,
    last_patch: u32,
)
    ensures
        final(table)@ == minor_line(old(table)@, major, minor, first_patch, last_patch),
{
    let latest = full_version_text(major, minor, last_patch);
    let mut short = decimal_text(major as u64);
    short.append(".");
    short.append(decimal_text(minor as u64).as_str());
    table.insert(short, latest.clone());
    let ghost start = table@;
    let mut p: u32 = first_patch;
    let mut done: bool = first_patch > last_patch;
    while !done
        invariant
            !done ==> first_patch <= p <= last_patch && table@ == with_patches(
                start,
                major,
                minor,
                first_patch,
                p as int,
            ),
            done ==> table@ == with_patches(start, major, minor, first_patch, last_patch + 1),
        decreases
                (if done {
                    0
                } else {
                    last_patch - p + 1
                }),
    {
        let v = full_version_text(major, minor, p);
        table.insert(v.clone(), v);
        if p == last_patch {
            done = true;
        } else {
            p = p + 1;
        }
    }
    table.insert(decimal_text(major as u64), latest);
}

/// What is logged when an action of a service is called: which action of
/// which service of which provider, and for which item. It is a warning for an
/// action that handles an error, and information for every other one.
pub open spec fn action_notice(
    cloud_provider_name: Seq<char>,
    struct_name: Seq<char>,
    fn_name: Seq<char>,
    item_name: Seq<char>,
    event_details: EventDetails,
) -> NoticeView {
    safe_log(
        if occurs_in("error"@, fn_name) {
            Level::Warning
        } else {
            Level::Info
        },
        event_details,
        cloud_provider_name + "."@ + struct_name + "."@ + fn_name + " called for "@ + item_name,
    )
}

/// What is logged when an action of a service is called.
pub fn print_action(
    cloud_provider_name: &str,
    struct_name: &str,
    fn_name: &str,
    item_name: &str,
    event_details: EventDetails,
) -> (r: Notice)
    ensures
        r@ == action_notice(
            cloud_provider_name@,
            struct_name@,
            fn_name@,
            item_name@,
            event_details,
        ),
{
    let mut msg = String::from_str(cloud_provider_name);
    msg.append(".");
    msg.append(struct_name);
    msg.append(".");
    msg.append(fn_name);
    msg.append(" called for ");
    msg.append(item_name);
    let level = if crate::text::contains(fn_name, "error") {
        Level::Warning
    } else {
        Level::Info
    };
    Notice::log(level, event_details, msg)
}

/// The versions of Redis that can be hosted in the cluster: the lines 6.0,
/// up to 6.0.9, and 5.0, up to 5.0.10.
pub open spec fn self_hosted_redis_versions() -> Map<Seq<char>, Seq<char>> {
    minor_line(minor_line(Map::empty(), 6, 0, 0, 9), 5, 0, 0, 10)
}

/// The version of self-hosted Redis to deploy for a requested version.
pub fn get_self_hosted_redis_version(requested_version: String) -> (r: Result<String, CommandError>)
    ensures
        version_result_is(
            r,
            spec_supported_version("Redis"@, self_hosted_redis_versions(), requested_version@),
        ),
{
    let mut supported = VersionTable::new();
    add_minor_line(&mut supported, 6, 0, 0, 9);
    add_minor_line(&mut supported, 5, 0, 0, 10);
    get_supported_version_to_use("Redis", &supported, requested_version.as_str())
}

} // verus!
