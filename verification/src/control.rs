//! Where the shell keeps its files, and the secrets and texts it hands to
//! the proxy it owns: control tokens, control-request files, the launch of
//! the staged runtime and the startup log.

use vstd::prelude::*;
use vstd::string::StringExecFns;
use crate::text::{lemma_hex_text_injective, contains_text, find_text, hex_lower, hex_text, is_lower_hex_digit, is_prefix_of, is_suffix_of, lemma_hex_text_shape, starts_with_text, substring};

verus! {

/// The error type of `getrandom`.
#[verifier::external_type_specification]
#[verifier::external_body]
pub struct ExRandomError(getrandom::Error);

/// `getrandom::getrandom`: fills `dest` from the system's random source.
/// Claimed: the buffer keeps its length. Nothing is claimed of the bytes or
/// of when an error comes: both rest on the operating system.
#[verifier::external_body]
fn fill_random(dest: &mut Vec<u8>) -> (r: Result<(), getrandom::Error>)
    ensures
        final(dest)@.len() == old(dest)@.len(),
{
    getrandom::getrandom(dest.as_mut_slice())
}

/// A control token: sixty-four lower-case hexadecimal digits.
pub open spec fn is_token(t: Seq<char>) -> bool {
    t.len() == 64 && forall|i: int| 0 <= i < t.len() ==> is_lower_hex_digit(#[trigger] t[i])
}

/// Thirty-two fresh random bytes in lower-case hexadecimal.
pub fn random_hex() -> (r: Result<String, String>)
    ensures
        r matches Ok(t) ==> is_token(t@) && exists|b: Seq<u8>| b.len() == 32 && t@ == hex_text(b),
{
    let mut bytes: Vec<u8> = vec![0u8; 32];
    let draw = match fill_random(&mut bytes) {
        Ok(()) => Ok(()),
        Err(e) => Err(e.to_string()),
    };
    let r = token_from_draw(draw, &bytes);
    proof {
        lemma_hex_text_shape(bytes@);
    }
    r
}

/// The token made from a random draw into `bytes`: a failed draw hands on
/// its error; a successful one gives the bytes in lower-case hexadecimal.
pub fn token_from_draw(draw: Result<(), String>, bytes: &Vec<u8>) -> (r: Result<String, String>)
    ensures
        match draw {
            Ok(()) => r matches Ok(t) && t@ == hex_text(bytes@),
            Err(e) => r == Err::<String, String>(e),
        },
{
    match draw {
        Ok(()) => Ok(hex_lower(bytes)),
        Err(e) => Err(e),
    }
}

/// A name that `Path::join` appends as one last component: not empty, not
/// `.` or `..`, and free of separators and drive colons.
pub open spec fn is_plain_file_name(name: Seq<char>) -> bool {
    &&& name.len() > 0
    &&& name != seq!['.']
    &&& name != seq!['.', '.']
    &&& !name.contains('/')
    &&& !name.contains('\\')
    &&& !name.contains(':')
}

/// A relative path that `Path::join` adjoins as it stands: not empty, with
/// no root (no leading separator) and no drive or prefix (no colon).
pub open spec fn is_relative_name(name: Seq<char>) -> bool {
    &&& name.len() > 0
    &&& name[0] != '/'
    &&& name[0] != '\\'
    &&& !name.contains(':')
}

/// A path that may carry a Windows verbatim prefix (`\\?\`), under which
/// joining normalizes the whole path.
pub open spec fn is_verbatim(base: Seq<char>) -> bool {
    &&& base.len() >= 3
    &&& (base[0] == '\\' || base[0] == '/')
    &&& (base[1] == '\\' || base[1] == '/')
    &&& base[2] == '?'
}

/// `r` is `base` and `name` with at most one separator (`/` or `\`) put
/// between them.
pub open spec fn is_joined(base: Seq<char>, name: Seq<char>, r: Seq<char>) -> bool {
    ||| r == base + name
    ||| r == base + seq!['/'] + name
    ||| r == base + seq!['\\'] + name
}

/// A directory path that a join separates from what follows: not empty,
/// not ending in a separator, not a bare drive (`C:`), not verbatim.
pub open spec fn is_directory_base(base: Seq<char>) -> bool {
    &&& base.len() > 0
    &&& base.last() != '/'
    &&& base.last() != '\\'
    &&& !(base.len() == 2 && base[1] == ':')
    &&& !is_verbatim(base)
}

/// `r` is `base`, one separator (`/` or `\`), then `name`: `name` lies
/// directly inside the directory `base`.
pub open spec fn is_separated(base: Seq<char>, name: Seq<char>, r: Seq<char>) -> bool {
    ||| r == base + seq!['/'] + name
    ||| r == base + seq!['\\'] + name
}

/// `Path::join` on text paths. Claimed: outside a verbatim base, a relative
/// name is appended after at most one separator, and after exactly one where
/// the base is a directory path that does not end in a separator and is not
/// a bare drive; outside a verbatim base, any name (an absolute one replaces
/// the base, wholly or up to its prefix) ends the joined path as it is
/// written; and a plain file name always ends the joined path. Which
/// separator is put depends on the platform and is not stated.
#[verifier::external_body]
fn join_path(base: &str, name: &str) -> (r: String)
    ensures
        is_relative_name(name@) && !is_verbatim(base@) ==> is_joined(base@, name@, r@),
        is_relative_name(name@) && is_directory_base(base@) ==> is_separated(base@, name@, r@),
        is_plain_file_name(name@) ==> is_suffix_of(name@, r@),
        !is_verbatim(base@) ==> is_suffix_of(name@, r@),
{
    std::path::Path::new(base).join(name).to_string_lossy().into_owned()
}

/// Joining a name without `?` onto a base that is not verbatim gives a path
/// that is not verbatim either.
proof fn lemma_joined_not_verbatim(base: Seq<char>, name: Seq<char>, r: Seq<char>)
    requires
        is_joined(base, name, r),
        !is_verbatim(base),
        name.len() > 0,
        !name.contains('?'),
    ensures
        !is_verbatim(r),
{
    if is_verbatim(r) && base.len() < 3 {
        let k: int = if r == base + name {
            2 - base.len()
        } else {
            2 - base.len() - 1
        };
        if 0 <= k {
            assert(r[2] == name[k]);
        }
    }
    if is_verbatim(r) && base.len() >= 3 {
        assert(r[0] == base[0] && r[1] == base[1] && r[2] == base[2]);
    }
}

/// The text holds a character other than a separator or a dot: as part of
/// a path it makes a component of its own.
pub open spec fn names_component(t: Seq<char>) -> bool {
    exists|i: int| 0 <= i < t.len() && t[i] != '/' && t[i] != '\\' && t[i] != '.'
}

/// `PartialEq` for `Path` (paths compare by their components). Claimed:
/// equal texts are equal paths; `~/` is the path `~`; and no text is the
/// path `~` that does not begin with `~`, that begins with `~` followed by
/// something other than a separator, or that is `~/` followed by a plain
/// file name or by anything holding a character other than a separator or a
/// dot (their components differ). Which other texts count as equal
/// paths depends on the platform and is not stated.
#[verifier::external_body]
fn same_path(a: &str, b: &str) -> (r: bool)
    ensures
        a@ == b@ ==> r,
        b@ == seq!['~'] && !(a@.len() > 0 && a@[0] == '~') ==> !r,
        b@ == seq!['~'] && is_prefix_of(seq!['~', '/'], a@) && is_plain_file_name(
            a@.subrange(2, a@.len() as int),
        ) ==> !r,
        b@ == seq!['~'] && a@.len() >= 2 && a@[0] == '~' && a@[1] != '/' && a@[1] != '\\' ==> !r,
        b@ == seq!['~'] && a@ == seq!['~', '/'] ==> r,
        b@ == seq!['~'] && is_prefix_of(seq!['~', '/'], a@) && names_component(
            a@.subrange(2, a@.len() as int),
        ) ==> !r,
{
    std::path::Path::new(a) == std::path::Path::new(b)
}

/// The name of the control-request file for `file_token`.
pub open spec fn control_request_name(file_token: Seq<char>) -> Seq<char> {
    "desktop-control-"@ + file_token + ".request"@
}

proof fn lemma_control_request_name_is_plain(file_token: Seq<char>)
    requires
        is_token(file_token),
    ensures
        is_plain_file_name(control_request_name(file_token)),
        is_relative_name(control_request_name(file_token)),
{
    reveal_strlit("desktop-control-");
    reveal_strlit(".request");
    let n = control_request_name(file_token);
    assert(n.len() == 16 + 64 + 8);
    assert(n[0] == 'd');
    assert forall|c: char| c == '/' || c == '\\' || c == ':' implies !n.contains(c) by {
        if n.contains(c) {
            let i = choose|i: int| 0 <= i < n.len() && n[i] == c;
            if 16 <= i < 80 {
                assert(is_lower_hex_digit(file_token[i - 16]));
            }
        }
    }
    assert(n != seq!['.']);
    assert(n != seq!['.', '.']);
}

/// `path` is the control-request file for `file_token` inside `config_dir`:
/// the file name always ends it; outside a verbatim directory it follows the
/// directory after at most one separator, and after exactly one where the
/// directory is a directory base.
pub open spec fn is_control_request_path(
    config_dir: Seq<char>,
    file_token: Seq<char>,
    path: Seq<char>,
) -> bool {
    let name = control_request_name(file_token);
    &&& is_relative_name(name) && !is_verbatim(config_dir) ==> is_joined(config_dir, name, path)
    &&& is_relative_name(name) && is_directory_base(config_dir) ==> is_separated(
        config_dir,
        name,
        path,
    )
    &&& is_plain_file_name(name) ==> is_suffix_of(name, path)
}

/// The control request for a launch: the control-request file named by
/// `file_token` inside `config_dir`, and `control_token` as the secret the
/// proxy must find written there.
pub fn control_request(config_dir: &str, file_token: &str, control_token: &str) -> (r: (
    String,
    String,
))
    ensures
        r.1@ == control_token@,
        is_control_request_path(config_dir@, file_token@, r.0@),
{
    let mut name = String::from_str("desktop-control-");
    name.append(file_token);
    name.append(".request");
    let path = join_path(config_dir, name.as_str());
    (path, String::from_str(control_token))
}

/// The control values made from the two token draws: a failed first draw,
/// or else a failed second one, hands on its error; otherwise the control
/// request names its file by the first token and carries the second.
pub fn control_values_from_draws(
    config_dir: &str,
    file_token: Result<String, String>,
    control_token: Result<String, String>,
) -> (r: Result<(String, String), String>)
    ensures
        match (file_token, control_token) {
            (Err(e), _) => r == Err::<(String, String), String>(e),
            (Ok(_), Err(e)) => r == Err::<(String, String), String>(e),
            (Ok(ft), Ok(ct)) => r matches Ok((path, token)) && token@ == ct@
                && is_control_request_path(config_dir@, ft@, path@),
        },
{
    let file_token = file_token?;
    let control_token = control_token?;
    Ok(control_request(config_dir, file_token.as_str(), control_token.as_str()))
}

/// Fresh control values for an owned proxy: the path of a new control-request
/// file inside `config_dir`, named by the text of one random draw, and the
/// text of a second, separate draw as the token the proxy must find written
/// there (drawn only once the first draw succeeded). The token is that
/// second draw whatever the first was; the two texts differ whenever the
/// draws do.
pub fn control_values(config_dir: &str) -> (r: Result<(String, String), String>)
    ensures
        r matches Ok((path, token)) ==> is_token(token@) && exists|file_draw: Seq<u8>, token_draw: Seq<u8>|
            #![trigger control_request_name(hex_text(file_draw)), hex_text(token_draw)]
            {
                &&& file_draw.len() == 32
                &&& token_draw.len() == 32
                &&& token@ == hex_text(token_draw)
                &&& is_token(hex_text(file_draw))
                &&& is_control_request_path(config_dir@, hex_text(file_draw), path@)
                &&& is_suffix_of(control_request_name(hex_text(file_draw)), path@)
                &&& file_draw != token_draw ==> hex_text(file_draw) != token@
            },
{
    let file_token = random_hex();
    let control_token = match &file_token {
        Ok(_) => random_hex(),
        Err(e) => Err(e.clone()),
    };
    let r = control_values_from_draws(config_dir, file_token, control_token);
    proof {
        if r is Ok {
            let token = r->Ok_0.1;
            let ft = file_token->Ok_0;
            let ct = control_token->Ok_0;
            lemma_control_request_name_is_plain(ft@);
            let fb = choose|b: Seq<u8>| b.len() == 32 && ft@ == hex_text(b);
            let tb = choose|b: Seq<u8>| b.len() == 32 && ct@ == hex_text(b);
            if fb != tb && hex_text(fb) == hex_text(tb) {
                lemma_hex_text_injective(fb, tb);
            }
            assert(control_request_name(hex_text(fb)) == control_request_name(ft@));
            assert(hex_text(tb) == token@);
        }
    }
    r
}

/// The name of the startup log.
pub open spec fn startup_log_name() -> Seq<char> {
    "desktop-startup.log"@
}

/// The startup log's path inside `config_dir`.
pub fn startup_log_path(config_dir: &str) -> (r: String)
    ensures
        is_suffix_of(startup_log_name(), r@),
        !is_verbatim(config_dir@) ==> is_joined(config_dir@, startup_log_name(), r@),
        is_directory_base(config_dir@) ==> is_separated(config_dir@, startup_log_name(), r@),
{
    proof {
        reveal_strlit("desktop-startup.log");
        assert(startup_log_name()[0] == 'd');
        assert(startup_log_name() != seq!['.']);
        assert(startup_log_name() != seq!['.', '.']);
    }
    join_path(config_dir, "desktop-startup.log")
}

/// A line to append to a log file.
#[derive(Debug)]
pub struct LogEntry {
    pub path: String,
    pub line: String,
}

/// The startup-failure record for `message`: the line to append to the
/// startup log inside `config_dir`.
pub fn write_startup_failure(config_dir: &str, message: &str) -> (r: LogEntry)
    ensures
        is_suffix_of(startup_log_name(), r.path@),
        !is_verbatim(config_dir@) ==> is_joined(config_dir@, startup_log_name(), r.path@),
        is_directory_base(config_dir@) ==> is_separated(config_dir@, startup_log_name(), r.path@),
        r.line@ == "OpenCodex desktop startup failed: "@ + message@ + "\n"@,
{
    let path = startup_log_path(config_dir);
    let mut line = String::from_str("OpenCodex desktop startup failed: ");
    line.append(message);
    line.append("\n");
    LogEntry { path, line }
}

/// The user's home: `USERPROFILE` where it is set, else `HOME`, else `.`.
pub fn user_home(userprofile: Option<String>, home: Option<String>) -> (r: String)
    ensures
        r@ == match (userprofile, home) {
            (Some(p), _) => p@,
            (None, Some(h)) => h@,
            (None, None) => "."@,
        },
{
    match userprofile {
        Some(p) => p,
        None => match home {
            Some(h) => h,
            None => String::from_str("."),
        },
    }
}

/// The name of the default OpenCodex home inside the user's home.
pub open spec fn default_home_name() -> Seq<char> {
    ".opencodex"@
}

/// `r` is `rest` joined onto `home`: outside a verbatim home, `rest` ends
/// it as written; a relative `rest` follows the home after at most one
/// separator, and after exactly one where the home is a directory base; a
/// plain file name always ends it.
pub open spec fn is_home_join(home: Seq<char>, rest: Seq<char>, r: Seq<char>) -> bool {
    &&& !is_verbatim(home) ==> is_suffix_of(rest, r)
    &&& is_relative_name(rest) && !is_verbatim(home) ==> is_joined(home, rest, r)
    &&& is_relative_name(rest) && is_directory_base(home) ==> is_separated(home, rest, r)
    &&& is_plain_file_name(rest) ==> is_suffix_of(rest, r)
}

/// The OpenCodex home: `OPENCODEX_HOME` where it is set and not empty (with
/// `~` and a leading `~/` taken to mean the user's home), else `.opencodex`
/// inside the user's home.
pub fn opencodex_home(configured: Option<String>, user_home: &str) -> (r: String)
    ensures
        match configured {
            Some(v) if v@.len() > 0 => {
                let rest = v@.subrange(2, v@.len() as int);
                &&& v@ == seq!['~'] ==> r@ == user_home@
                &&& v@[0] != '~' ==> r@ == v@
                &&& v@ == seq!['~', '/'] ==> r@ == user_home@
                &&& (v@.len() >= 2 && v@[0] == '~' && v@[1] != '/' && v@[1] != '\\') ==> r@ == v@
                &&& (is_prefix_of(seq!['~', '/'], v@) && (is_plain_file_name(rest) || names_component(
                    rest,
                ))) ==> is_home_join(user_home@, rest, r@)
                &&& is_prefix_of(seq!['~', '/'], v@) ==> (r@ == user_home@ || is_home_join(
                    user_home@,
                    rest,
                    r@,
                ))
                &&& (v@[0] == '~' && !is_prefix_of(seq!['~', '/'], v@)) ==> (r@ == v@ || r@
                    == user_home@)
            },
            _ => {
                &&& is_suffix_of(default_home_name(), r@)
                &&& !is_verbatim(user_home@) ==> is_joined(user_home@, default_home_name(), r@)
                &&& is_directory_base(user_home@) ==> is_separated(
                    user_home@,
                    default_home_name(),
                    r@,
                )
            },
        },
{
    proof {
        reveal_strlit(".opencodex");
        reveal_strlit("~/");
        reveal_strlit("~");
        assert("~/"@ =~= seq!['~', '/']);
        assert("~"@ =~= seq!['~']);
        assert(default_home_name()[0] == '.');
        assert(default_home_name().len() == 10);
        assert(default_home_name() != seq!['.']);
        assert(default_home_name() != seq!['.', '.']);
        assert(!default_home_name().contains('/'));
        assert(!default_home_name().contains('\\'));
        assert(!default_home_name().contains(':'));
    }
    match configured {
        Some(v) => {
            let n = v.as_str().unicode_len();
            if n > 0 {
                if same_path(v.as_str(), "~") {
                    return String::from_str(user_home);
                }
                if starts_with_text(v.as_str(), "~/") {
                    let rest = substring(v.as_str(), 2, n);
                    return join_path(user_home, rest.as_str());
                }
                return v;
            }
            join_path(user_home, ".opencodex")
        },
        None => join_path(user_home, ".opencodex"),
    }
}

/// The file name of the staged Bun executable.
pub open spec fn sidecar_name() -> Seq<char> {
    "bun-x86_64-pc-windows-msvc.exe"@
}

/// Where the staged runtime lives.
#[derive(Debug)]
pub struct RuntimePaths {
    pub runtime: String,
    pub bun: String,
    pub config: String,
}

proof fn lemma_layout_names()
    ensures
        is_plain_file_name(sidecar_name()),
        is_relative_name(sidecar_name()),
        is_plain_file_name("binaries"@),
        is_relative_name("binaries"@),
        !"binaries"@.contains('?'),
        is_plain_file_name("runtime"@),
        is_relative_name("runtime"@),
{
    reveal_strlit("bun-x86_64-pc-windows-msvc.exe");
    reveal_strlit("binaries");
    reveal_strlit("runtime");
    assert(sidecar_name().len() == 30);
    assert(sidecar_name()[0] == 'b');
    assert(sidecar_name() != seq!['.']);
    assert(sidecar_name() != seq!['.', '.']);
    assert("binaries"@.len() == 8);
    assert("binaries"@ != seq!['.']);
    assert("binaries"@ != seq!['.', '.']);
    assert("runtime"@.len() == 7);
    assert("runtime"@ != seq!['.']);
    assert("runtime"@ != seq!['.', '.']);
}

/// The places to look for the staged Bun executable in the resources
/// directory, in order: its `binaries` directory, then the directory itself.
pub fn sidecar_candidates(resource_dir: &str) -> (r: Vec<String>)
    ensures
        r.len() == 2,
        is_suffix_of(sidecar_name(), r[0]@),
        is_suffix_of(sidecar_name(), r[1]@),
        !is_verbatim(resource_dir@) ==> exists|binaries: Seq<char>|
            {
                &&& #[trigger] is_joined(resource_dir@, "binaries"@, binaries)
                &&& is_joined(binaries, sidecar_name(), r[0]@)
            },
        !is_verbatim(resource_dir@) ==> is_joined(resource_dir@, sidecar_name(), r[1]@),
        is_directory_base(resource_dir@) ==> exists|binaries: Seq<char>|
            {
                &&& #[trigger] is_separated(resource_dir@, "binaries"@, binaries)
                &&& is_separated(binaries, sidecar_name(), r[0]@)
            },
        is_directory_base(resource_dir@) ==> is_separated(resource_dir@, sidecar_name(), r[1]@),
{
    proof {
        lemma_layout_names();
    }
    let binaries = join_path(resource_dir, "binaries");
    proof {
        if !is_verbatim(resource_dir@) {
            lemma_joined_not_verbatim(resource_dir@, "binaries"@, binaries@);
        }
        if is_directory_base(resource_dir@) {
            reveal_strlit("binaries");
            assert(binaries@.last() == 's');
            assert(binaries@.len() > 2);
        }
    }
    let first = join_path(binaries.as_str(), "bun-x86_64-pc-windows-msvc.exe");
    let second = join_path(resource_dir, "bun-x86_64-pc-windows-msvc.exe");
    let mut r: Vec<String> = Vec::new();
    r.push(first);
    r.push(second);
    r
}

/// The runtime's layout: the runtime sources in the resources directory,
/// the Bun executable found among the candidates, and the OpenCodex home.
/// Without a Bun executable there is no runtime.
pub fn runtime_paths(resource_dir: &str, bun: Option<String>, config: String) -> (r: Result<
    RuntimePaths,
    String,
>)
    ensures
        match bun {
            Some(b) => r matches Ok(p) && p.bun == b && p.config == config && is_suffix_of(
                "runtime"@,
                p.runtime@,
            ) && (!is_verbatim(resource_dir@) ==> is_joined(resource_dir@, "runtime"@, p.runtime@))
                && (is_directory_base(resource_dir@) ==> is_separated(
                resource_dir@,
                "runtime"@,
                p.runtime@,
            )),
            None => r matches Err(e) && e@ == "The bundled Bun sidecar is missing."@,
        },
{
    proof {
        lemma_layout_names();
    }
    match bun {
        Some(b) => Ok(RuntimePaths { runtime: join_path(resource_dir, "runtime"), bun: b, config }),
        None => Err(String::from_str("The bundled Bun sidecar is missing.")),
    }
}

/// How the owned proxy is launched: the program and its arguments, the
/// directory it runs in, the environment it is given and the variable it
/// must not inherit.
#[derive(Debug)]
pub struct LaunchPlan {
    pub program: String,
    pub args: Vec<String>,
    pub current_dir: String,
    pub envs: Vec<(String, String)>,
    pub removed_env: String,
}

/// The launch of the staged runtime as an owned proxy: Bun runs the CLI's
/// `start` command in the runtime directory, is told where the dashboard
/// assets and Bun itself are, and gets the control-request file and token;
/// it does not inherit `OCX_SERVICE`.
pub fn launch_plan(paths: &RuntimePaths, control_file: &str, control_token: &str) -> (r:
    LaunchPlan)
    ensures
        r.program@ == paths.bun@,
        r.args@.len() == 2,
        !is_verbatim(paths.runtime@) ==> is_joined(paths.runtime@, "src/cli/index.ts"@, r.args@[0]@),
        is_directory_base(paths.runtime@) ==> is_separated(
            paths.runtime@,
            "src/cli/index.ts"@,
            r.args@[0]@,
        ),
        r.args@[1]@ == "start"@,
        r.current_dir@ == paths.runtime@,
        r.envs@.len() == 4,
        r.envs@[0].0@ == "OCX_GUI_DIST"@,
        !is_verbatim(paths.runtime@) ==> is_joined(paths.runtime@, "gui/dist"@, r.envs@[0].1@),
        is_directory_base(paths.runtime@) ==> is_separated(
            paths.runtime@,
            "gui/dist"@,
            r.envs@[0].1@,
        ),
        r.envs@[1].0@ == "OPENCODEX_BUN_PATH"@ && r.envs@[1].1@ == paths.bun@,
        r.envs@[2].0@ == "OCX_DESKTOP_CONTROL_FILE"@ && r.envs@[2].1@ == control_file@,
        r.envs@[3].0@ == "OCX_DESKTOP_CONTROL_TOKEN"@ && r.envs@[3].1@ == control_token@,
        r.removed_env@ == "OCX_SERVICE"@,
{
    proof {
        reveal_strlit("src/cli/index.ts");
        reveal_strlit("gui/dist");
        assert("src/cli/index.ts"@[0] == 's');
        assert("gui/dist"@[0] == 'g');
        assert(!"src/cli/index.ts"@.contains(':'));
        assert(!"gui/dist"@.contains(':'));
    }
    let script = join_path(paths.runtime.as_str(), "src/cli/index.ts");
    let gui_dist = join_path(paths.runtime.as_str(), "gui/dist");
    let mut args: Vec<String> = Vec::new();
    args.push(script);
    args.push(String::from_str("start"));
    let mut envs: Vec<(String, String)> = Vec::new();
    envs.push((String::from_str("OCX_GUI_DIST"), gui_dist));
    envs.push((String::from_str("OPENCODEX_BUN_PATH"), paths.bun.clone()));
    envs.push((String::from_str("OCX_DESKTOP_CONTROL_FILE"), String::from_str(control_file)));
    envs.push((String::from_str("OCX_DESKTOP_CONTROL_TOKEN"), String::from_str(control_token)));
    LaunchPlan {
        program: paths.bun.clone(),
        args,
        current_dir: paths.runtime.clone(),
        envs,
        removed_env: String::from_str("OCX_SERVICE"),
    }
}

/// The account a control file is restricted to on Windows: `DOMAIN\user`
/// where a domain is known, else the user; no account without a user name.
pub fn acl_account(username: Option<String>, domain: Option<String>) -> (r: Result<String, String>)
    ensures
        match (username, domain) {
            (None, _) => r matches Err(e) && e@
                == "Cannot determine current Windows user for control-file ACL hardening."@,
            (Some(u), Some(d)) => r matches Ok(a) && a@ == (if d@.len() > 0 {
                d@ + "\\"@ + u@
            } else {
                u@
            }),
            (Some(u), None) => r matches Ok(a) && a@ == u@,
        },
{
    match username {
        None => Err(
            String::from_str("Cannot determine current Windows user for control-file ACL hardening."),
        ),
        Some(u) => match domain {
            Some(d) => {
                if d.as_str().unicode_len() > 0 {
                    let mut a = d;
                    a.append("\\");
                    a.append(u.as_str());
                    Ok(a)
                } else {
                    Ok(u)
                }
            },
            None => Ok(u),
        },
    }
}

/// The `icacls` grant that gives `account` full control.
pub fn acl_grant(account: &str) -> (r: String)
    ensures
        r@ == account@ + ":(F)"@,
{
    let mut r = String::from_str(account);
    r.append(":(F)");
    r
}

/// Whether an `icacls /findsid` probe shows that a broad group may still
/// reach the control file: the probe failed, or it listed the file.
pub fn acl_probe_shows_access(succeeded: bool, stdout: &str, path: &str) -> (r: bool)
    ensures
        r == (!succeeded || contains_text(stdout@, path@)),
{
    if !succeeded {
        return true;
    }
    find_text(stdout, path).is_some()
}

/// One `icacls` run in restricting a control file to its owner on Windows.
#[derive(Clone, Copy, Debug, PartialEq, Eq, Structural)]
pub enum AclStep {
    /// Stop inheriting permissions.
    RemoveInheritance,
    /// Remove the grants of the broad groups (everyone, authenticated users, users).
    RemoveBroadGroups,
    /// Ask whether broad group number `i` can still reach the file.
    ProbeGroup(u8),
    /// Grant the owner full control.
    Grant,
}

/// What follows an `icacls` run.
#[derive(Clone, Copy, Debug, PartialEq, Eq, Structural)]
pub enum AclAction {
    Run(AclStep),
    Restricted,
    Failed,
}

/// The security identifier of broad group `i` (of three).
pub open spec fn broad_group_sid(i: int) -> Seq<char> {
    if i == 0 {
        "*S-1-1-0"@
    } else if i == 1 {
        "*S-1-5-11"@
    } else {
        "*S-1-5-32-545"@
    }
}

/// The security identifier of broad group `i`: everyone, authenticated
/// users, users.
pub fn broad_group(i: u8) -> (r: &'static str)
    requires
        i < 3,
    ensures
        r@ == broad_group_sid(i as int),
{
    if i == 0 {
        "*S-1-1-0"
    } else if i == 1 {
        "*S-1-5-11"
    } else {
        "*S-1-5-32-545"
    }
}

/// The order of the `icacls` runs. `ok` reports the run: it succeeded, or,
/// for a probe, it shows the group can no longer reach the file. A failed
/// inheritance removal or grant fails the restriction; when removing the
/// broad groups fails, each group is probed in turn, and any that still
/// reaches the file fails it; the grant comes last.
pub fn acl_next(step: AclStep, ok: bool) -> (r: AclAction)
    requires
        step matches AclStep::ProbeGroup(i) ==> i < 3,
    ensures
        r == match step {
            AclStep::RemoveInheritance => if ok {
                AclAction::Run(AclStep::RemoveBroadGroups)
            } else {
                AclAction::Failed
            },
            AclStep::RemoveBroadGroups => if ok {
                AclAction::Run(AclStep::Grant)
            } else {
                AclAction::Run(AclStep::ProbeGroup(0))
            },
            AclStep::ProbeGroup(i) => if !ok {
                AclAction::Failed
            } else if i < 2 {
                AclAction::Run(AclStep::ProbeGroup((i + 1) as u8))
            } else {
                AclAction::Run(AclStep::Grant)
            },
            AclStep::Grant => if ok {
                AclAction::Restricted
            } else {
                AclAction::Failed
            },
        },
        r matches AclAction::Run(AclStep::ProbeGroup(j)) ==> j < 3,
{
    match step {
        AclStep::RemoveInheritance => if ok {
            AclAction::Run(AclStep::RemoveBroadGroups)
        } else {
            AclAction::Failed
        },
        AclStep::RemoveBroadGroups => if ok {
            AclAction::Run(AclStep::Grant)
        } else {
            AclAction::Run(AclStep::ProbeGroup(0))
        },
        AclStep::ProbeGroup(i) => if !ok {
            AclAction::Failed
        } else if i < 2 {
            AclAction::Run(AclStep::ProbeGroup(i + 1))
        } else {
            AclAction::Run(AclStep::Grant)
        },
        AclStep::Grant => if ok {
            AclAction::Restricted
        } else {
            AclAction::Failed
        },
    }
}

} // verus!
