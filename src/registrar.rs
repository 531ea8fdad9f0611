//! Runner registration: tags, accelerator discovery output, the request,
//! and how the issued token is shown.

use crate::error::Error;
use crate::gitlab::projects::opt_view;
use crate::gitlab::runners::{RegisterRunnerRequest, RunnerInfo};
use crate::text::{join2, join3, owned, push_char, split, split_all, trim, trim_str};
use vstd::prelude::*;

verus! {

/// What `str::to_lowercase` makes of a string.
pub uninterp spec fn lowercase_of(s: Seq<char>) -> Seq<char>;

/// Relies on `str::to_lowercase`: the result depends on the characters
/// alone.
#[verifier::external_body]
fn lowercase(s: &str) -> (r: String)
    ensures
        r@ == lowercase_of(s@),
{
    s.to_lowercase()
}

/// Prefix of generated runner descriptions.
pub const DESCRIPTION_PREFIX: &'static str = "autogit-runner-";

/// `s` with every occurrence of `from` replaced by `to`.
pub open spec fn replaced(s: Seq<char>, from: char, to: char) -> Seq<char>
    decreases s.len(),
{
    if s.len() == 0 {
        Seq::empty()
    } else {
        replaced(s.drop_last(), from, to).push(
            if s.last() == from {
                to
            } else {
                s.last()
            },
        )
    }
}

/// `s` with every `from` replaced by `to`.
pub fn replace_char(s: &str, from: char, to: char) -> (r: String)
    ensures
        r@ == replaced(s@, from, to),
{
    let n = s.unicode_len();
    let mut r = String::new();
    let mut i: usize = 0;
    while i < n
        invariant
            n == s@.len(),
            i <= n,
            r@ == replaced(s@.subrange(0, i as int), from, to),
        decreases n - i,
    {
        let c = s.get_char(i);
        push_char(&mut r, if c == from { to } else { c });
        proof {
            assert(s@.subrange(0, i + 1).drop_last() =~= s@.subrange(0, i as int));
        }
        i = i + 1;
    }
    assert(s@.subrange(0, n as int) =~= s@);
    r
}

/// The tag for one accelerator: `gpu:` and its name, lower case, with
/// spaces as dashes.
pub open spec fn gpu_tag(name: Seq<char>) -> Seq<char> {
    "gpu:"@ + lowercase_of(replaced(name, ' ', '-'))
}

/// The tags of a comma-separated list, each trimmed.
pub open spec fn tag_list(tags: Seq<char>) -> Seq<Seq<char>> {
    split(tags, ',').map_values(|t: Seq<char>| trim(t))
}

/// The non-blank lines of a discovery tool's output, trimmed.
pub open spec fn device_names(ls: Seq<Seq<char>>) -> Seq<Seq<char>>
    decreases ls.len(),
{
    if ls.len() == 0 {
        Seq::empty()
    } else {
        let prev = device_names(ls.drop_last());
        let t = trim(ls.last());
        if t.len() > 0 {
            prev.push(t)
        } else {
            prev
        }
    }
}

/// The views of a list of strings.
pub open spec fn views(v: Seq<String>) -> Seq<Seq<char>> {
    v.map_values(|s: String| s@)
}

/// The tags of an optional comma-separated list: none when absent,
/// otherwise every piece between commas, trimmed (empty pieces kept).
pub fn parse_tags(tags: Option<&str>) -> (r: Vec<String>)
    ensures
        match tags {
            Some(t) => views(r@) == tag_list(t@),
            None => r@.len() == 0,
        },
{
    let mut r: Vec<String> = Vec::new();
    match tags {
        None => r,
        Some(t) => {
            let pieces = split_all(t, ',');
            let mut i: usize = 0;
            while i < pieces.len()
                invariant
                    pieces@.len() == split(t@, ',').len(),
                    forall|j: int| 0 <= j < pieces@.len() ==> #[trigger] pieces@[j]@ == split(t@, ',')[j],
                    i <= pieces@.len(),
                    r@.len() == i,
                    views(r@) == tag_list(t@).subrange(0, i as int),
                decreases pieces@.len() - i,
            {
                let piece = trim_str(pieces[i].as_str());
                let ghost before = r@;
                r.push(owned(piece));
                proof {
                    assert(pieces@[i as int]@ == split(t@, ',')[i as int]);
                    assert(r@[i as int]@ == piece@);
                    assert(views(r@) =~= views(before).push(piece@));
                    assert(views(r@) =~= tag_list(t@).subrange(0, i + 1));
                }
                i = i + 1;
            }
            assert(tag_list(t@).subrange(0, i as int) =~= tag_list(t@));
            r
        },
    }
}

/// The accelerator names in the output of the discovery tool: one per
/// line, trimmed, blank lines dropped.
pub fn parse_device_list(output: &str) -> (r: Vec<String>)
    ensures
        views(r@) == device_names(split(output@, '\n')),
{
    let lines = split_all(output, '\n');
    let ghost ls = split(output@, '\n');
    let mut r: Vec<String> = Vec::new();
    let mut i: usize = 0;
    while i < lines.len()
        invariant
            lines@.len() == ls.len(),
            forall|j: int| 0 <= j < lines@.len() ==> #[trigger] lines@[j]@ == ls[j],
            i <= lines@.len(),
            views(r@) == device_names(ls.subrange(0, i as int)),
        decreases lines@.len() - i,
    {
        let t = trim_str(lines[i].as_str());
        proof {
            assert(ls.subrange(0, i + 1).drop_last() =~= ls.subrange(0, i as int));
            assert(ls.subrange(0, i + 1).last() == lines@[i as int]@);
        }
        if t.unicode_len() > 0 {
            r.push(owned(t));
            assert(views(r@) =~= device_names(ls.subrange(0, i as int)).push(t@));
        }
        i = i + 1;
    }
    assert(ls.subrange(0, i as int) =~= ls);
    r
}

/// The tags for discovered accelerators: one `gpu:` tag each, then `gpu`
/// and `cuda` when there is at least one.
pub open spec fn accelerator_tag_list(devices: Seq<Seq<char>>) -> Seq<Seq<char>> {
    devices.map_values(|d: Seq<char>| gpu_tag(d)) + if devices.len() > 0 {
        seq!["gpu"@, "cuda"@]
    } else {
        Seq::empty()
    }
}

/// The tags of an optional comma-separated list.
pub open spec fn given_tags(tags: Option<Seq<char>>) -> Seq<Seq<char>> {
    match tags {
        Some(t) => tag_list(t),
        None => Seq::empty(),
    }
}

/// The tags for discovered accelerators, as `accelerator_tag_list` states.
pub fn accelerator_tags(devices: &Vec<String>) -> (r: Vec<String>)
    ensures
        views(r@) == accelerator_tag_list(views(devices@)),
{
    let mut r: Vec<String> = Vec::new();
    let mut i: usize = 0;
    while i < devices.len()
        invariant
            i <= devices@.len(),
            views(r@) == views(devices@).subrange(0, i as int).map_values(|d: Seq<char>| gpu_tag(d)),
        decreases devices@.len() - i,
    {
        let dashed = replace_char(devices[i].as_str(), ' ', '-');
        let lower = lowercase(dashed.as_str());
        let ghost before = r@;
        r.push(join2("gpu:", lower.as_str()));
        proof {
            assert(views(devices@)[i as int] == devices@[i as int]@);
            assert(views(r@) =~= views(before).push(gpu_tag(devices@[i as int]@)));
            assert(views(r@) =~= views(devices@).subrange(0, i + 1).map_values(
                |d: Seq<char>| gpu_tag(d),
            ));
        }
        i = i + 1;
    }
    assert(views(devices@).subrange(0, i as int) =~= views(devices@));
    let ghost base = views(r@);
    if devices.len() > 0 {
        r.push(owned("gpu"));
        r.push(owned("cuda"));
        assert(views(r@) =~= base + seq!["gpu"@, "cuda"@]);
    } else {
        assert(views(r@) =~= base + Seq::<Seq<char>>::empty());
    }
    r
}

/// The tags a registration sends: the given list, then the accelerator
/// tags.
pub fn registration_tags(tags: Option<&str>, devices: &Vec<String>) -> (r: Vec<String>)
    ensures
        views(r@) == given_tags(
            match tags {
                Some(t) => Some(t@),
                None => None,
            },
        ) + accelerator_tag_list(views(devices@)),
{
    let mut given = parse_tags(tags);
    let mut found = accelerator_tags(devices);
    let ghost g = given@;
    let ghost f = found@;
    given.append(&mut found);
    assert(views(given@) =~= views(g) + views(f));
    assert(match tags {
        Some(t) => views(g) == tag_list(t@),
        None => views(g) =~= Seq::<Seq<char>>::empty(),
    });
    given
}

/// The description of a runner: the given one, else the prefix and the
/// host name, or `unknown` when the host name is not known.
pub fn runner_description(description: Option<&str>, hostname: Option<&str>) -> (r: String)
    ensures
        match description {
            Some(d) => r@ == d@,
            None => r@ == DESCRIPTION_PREFIX@ + match hostname {
                Some(h) => h@,
                None => "unknown"@,
            },
        },
{
    match description {
        Some(d) => owned(d),
        None => match hostname {
            Some(h) => join2(DESCRIPTION_PREFIX, h),
            None => join2(DESCRIPTION_PREFIX, "unknown"),
        },
    }
}

/// The registration token read from the environment; its absence is a
/// configuration error that says where to get one.
pub fn registration_token(value: Option<String>) -> (r: Result<String, Error>)
    ensures
        match value {
            Some(v) => r == Ok::<String, Error>(v),
            None => r is Err && r->Err_0 is Config && r->Err_0->Config_0@
                == "GITLAB_RUNNER_TOKEN not set. Get it from GitLab Admin > CI/CD > Runners"@,
        },
{
    match value {
        Some(v) => Ok(v),
        None => Err(
            Error::Config(
                owned("GITLAB_RUNNER_TOKEN not set. Get it from GitLab Admin > CI/CD > Runners"),
            ),
        ),
    }
}

/// The system information a runner reports: its description as name, the
/// tool's version, the platform and the architecture.
pub fn runner_info(name: &str, version: &str, platform: &str, architecture: &str) -> (r: RunnerInfo)
    ensures
        opt_view(r.name) == Some(name@),
        opt_view(r.version) == Some(version@),
        r.revision is None,
        opt_view(r.platform) == Some(platform@),
        opt_view(r.architecture) == Some(architecture@),
{
    RunnerInfo {
        name: Some(owned(name)),
        version: Some(owned(version)),
        revision: None,
        platform: Some(owned(platform)),
        architecture: Some(owned(architecture)),
    }
}

/// The registration request: token, description, system information,
/// untagged-job policy and tags.
pub fn registration_request(
    token: &str,
    description: &str,
    info: RunnerInfo,
    run_untagged: bool,
    tags: Vec<String>,
) -> (r: RegisterRunnerRequest)
    ensures
        r.token@ == token@,
        opt_view(r.description) == Some(description@),
        r.info == Some(info),
        r.run_untagged == run_untagged,
        !r.locked,
        r.tag_list == tags,
        r.access_level is None,
        r.maximum_timeout is None,
{
    RegisterRunnerRequest::new(token).description(description).info(info).run_untagged(
        run_untagged,
    ).tags(tags)
}

/// A token as shown to the user: its first and last four characters
/// around `...`, or `****` for a token of eight characters or fewer.
pub open spec fn masked(t: Seq<char>) -> Seq<char> {
    if t.len() > 8 {
        t.subrange(0, 4) + "..."@ + t.subrange(t.len() - 4, t.len() as int)
    } else {
        "****"@
    }
}

/// Masks a token for display.
pub fn mask_token(token: &str) -> (r: String)
    ensures
        r@ == masked(token@),
{
    let n = token.unicode_len();
    if n > 8 {
        join3(token.substring_char(0, 4), "...", token.substring_char(n - 4, n))
    } else {
        owned("****")
    }
}

/// Decides whether a runner removal may proceed: outside a dry run it
/// requires the `confirmed` flag; `Ok(true)` means remove the runner.
pub fn runner_removal_allowed(confirmed: bool, dry_run: bool) -> (r: Result<bool, Error>)
    ensures
        !confirmed && !dry_run ==> r is Err && r->Err_0 is Config,
        confirmed || dry_run ==> r == Ok::<bool, Error>(!dry_run),
{
    if !confirmed && !dry_run {
        return Err(Error::Config(owned("Use --yes to confirm runner removal")));
    }
    Ok(!dry_run)
}

/// The value of a decimal digit character, if it is one.
pub open spec fn digit_value(c: char) -> Option<nat> {
    let u = c as u32;
    if 48 <= u && u <= 57 {
        Some((u - 48) as nat)
    } else {
        None
    }
}

/// Whether every character is a decimal digit.
pub open spec fn all_digits(s: Seq<char>) -> bool {
    forall|i: int| 0 <= i < s.len() ==> (#[trigger] digit_value(s[i])) is Some
}

/// The number a string of decimal digits denotes.
pub open spec fn digits_value(s: Seq<char>) -> nat
    decreases s.len(),
{
    if s.len() == 0 {
        0
    } else {
        digits_value(s.drop_last()) * 10 + match digit_value(s.last()) {
            Some(d) => d,
            None => 0,
        }
    }
}

/// The digits of an unsigned integer as `u64::from_str` reads it: an
/// optional `+`, then at least one digit.
pub open spec fn unsigned_digits(s: Seq<char>) -> Option<Seq<char>> {
    let d = if s.len() > 0 && s[0] == '+' {
        s.drop_first()
    } else {
        s
    };
    if d.len() > 0 && all_digits(d) {
        Some(d)
    } else {
        None
    }
}

/// Reads a runner id; a configuration error when it is not a number that
/// fits in 64 bits.
pub fn parse_runner_id(s: &str) -> (r: Result<u64, Error>)
    ensures
        match r {
            Ok(v) => unsigned_digits(s@) is Some && v == digits_value(unsigned_digits(s@)->0),
            Err(e) => e is Config && match unsigned_digits(s@) {
                Some(d) => digits_value(d) > u64::MAX,
                None => true,
            },
        },
{
    let n = s.unicode_len();
    let start: usize = if n > 0 && s.get_char(0) == '+' {
        1
    } else {
        0
    };
    let ghost d = if s@.len() > 0 && s@[0] == '+' {
        s@.drop_first()
    } else {
        s@
    };
    assert(d =~= s@.subrange(start as int, n as int));
    if start >= n {
        return Err(Error::Config(owned("Invalid runner ID")));
    }
    let mut v: u64 = 0;
    let mut i: usize = start;
    while i < n
        invariant
            n == s@.len(),
            start <= i <= n,
            start < n,
            d == s@.subrange(start as int, n as int),
            d == (if s@.len() > 0 && s@[0] == '+' {
                s@.drop_first()
            } else {
                s@
            }),
            all_digits(s@.subrange(start as int, i as int)),
            v == digits_value(s@.subrange(start as int, i as int)),
        decreases n - i,
    {
        let c = s.get_char(i);
        let u = c as u32;
        let ghost pre = s@.subrange(start as int, i + 1);
        proof {
            assert(pre.drop_last() =~= s@.subrange(start as int, i as int));
            assert(pre.last() == c);
        }
        if u < 48 || u > 57 {
            proof {
                assert(d[i - start] == c);
                assert(digit_value(d[i - start]) is None);
                assert(!all_digits(d));
                assert(unsigned_digits(s@) is None);
            }
            return Err(Error::Config(owned("Invalid runner ID")));
        }
        let dv = (u - 48) as u64;
        if v > 1844674407370955161 || (v == 1844674407370955161 && dv > 5) {
            proof {
                assert(digit_value(pre.last()) == Some(dv as nat));
                assert(digits_value(pre) == v * 10 + dv);
                if all_digits(d) {
                    lemma_digits_prefix_bound(d, (i - start + 1) as int);
                    assert(d.subrange(0, i - start + 1) =~= pre);
                    assert(unsigned_digits(s@) == Some(d));
                    assert(digits_value(d) > u64::MAX);
                }
            }
            return Err(Error::Config(owned("Invalid runner ID")));
        }
        v = v * 10 + dv;
        proof {
            assert(digit_value(pre.last()) == Some(dv as nat));
            assert forall|j: int| 0 <= j < pre.len() implies (#[trigger] digit_value(pre[j])) is Some by {
                if j < pre.len() - 1 {
                    assert(pre[j] == s@.subrange(start as int, i as int)[j]);
                }
            }
        }
        i = i + 1;
    }
    proof {
        assert(s@.subrange(start as int, n as int) == d);
    }
    Ok(v)
}

/// A string of digits denotes at least what any of its prefixes does.
proof fn lemma_digits_prefix_bound(d: Seq<char>, k: int)
    requires
        0 <= k <= d.len(),
    ensures
        digits_value(d.subrange(0, k)) <= digits_value(d),
    decreases d.len() - k,
{
    if k < d.len() {
        lemma_digits_prefix_bound(d.drop_last(), k);
        assert(d.drop_last().subrange(0, k) =~= d.subrange(0, k));
    } else {
        assert(d.subrange(0, k) =~= d);
    }
}

} // verus!
