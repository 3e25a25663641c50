//! Revocation pipeline: where the revocation certificate lives, how an
//! action name resolves to an executable, how the action list is composed,
//! and when a notification may start any action at all.

use vstd::prelude::*;
use vstd::string::*;
use crate::error::Error;
use crate::paths::{is_absolute, join_path, join_spec};
use crate::json::{compact_json_text, json_compact, json_member_str, json_parses, json_str_member};
use crate::text::{nonempty_trimmed, push_split_trimmed, split_on, str_eq, trim, trimmed, views};

verus! {

/// File name of the revocation certificate inside the unpacked payload.
pub const REV_CERT: &'static str = "RevocationNotifier-cert.crt";

/// Where the unpacked payload keeps the revocation certificate, relative to
/// the work directory.
pub const DEFAULT_CERT_PATH: &'static str = "secure/unzipped/RevocationNotifier-cert.crt";

/// The configuration keys that the revocation pipeline and the quote
/// handlers read.
#[derive(Clone, Debug)]
pub struct KeylimeConfig {
    pub work_dir: String,
    pub secure_size: String,
    pub revocation_cert: String,
    pub revocation_actions: String,
    pub revocation_actions_dir: String,
    pub allow_payload_revocation_actions: bool,
    pub ima_ml_path: String,
    pub measuredboot_ml_path: String,
    pub revocation_ip: String,
    pub revocation_port: String,
}

impl Default for KeylimeConfig {
    fn default() -> (r: KeylimeConfig)
        ensures
            r.work_dir@ == "/var/lib/keylime"@,
            r.revocation_cert@ == "default"@,
            r.revocation_actions@ == Seq::<char>::empty(),
            r.allow_payload_revocation_actions,
    {
        let r = KeylimeConfig {
            work_dir: "/var/lib/keylime".to_owned(),
            secure_size: "1m".to_owned(),
            revocation_cert: "default".to_owned(),
            revocation_actions: String::new(),
            revocation_actions_dir: "/usr/libexec/keylime".to_owned(),
            allow_payload_revocation_actions: true,
            ima_ml_path: "/sys/kernel/security/ima/ascii_runtime_measurements".to_owned(),
            measuredboot_ml_path: "/sys/kernel/security/tpm0/binary_bios_measurements".to_owned(),
            revocation_ip: "127.0.0.1".to_owned(),
            revocation_port: "8992".to_owned(),
        };
        r
    }
}

/// The path of the revocation certificate that `revocation_cert` names
/// inside the work directory `work_dir`, or `None` where it names none.
pub open spec fn cert_path_spec(work_dir: Seq<char>, revocation_cert: Seq<char>) -> Option<
    Seq<char>,
> {
    let r = trimmed(revocation_cert);
    if r == "default"@ {
        Some(join_spec(work_dir, DEFAULT_CERT_PATH@))
    } else if r.len() == 0 {
        None
    } else {
        Some(join_spec(work_dir, r))
    }
}

/// The revocation certificate path from the `revocation_cert` entry: the
/// default place under the work directory for "default", the entry itself
/// when absolute, the entry under the work directory when relative; an
/// error when the entry is empty.
pub fn get_revocation_cert_path(config: &KeylimeConfig) -> (r: Result<String, Error>)
    ensures
        cert_path_spec(config.work_dir@, config.revocation_cert@) matches Some(p) ==> (r matches Ok(
            s,
        ) && s@ == p),
        cert_path_spec(config.work_dir@, config.revocation_cert@) is None ==> (r matches Err(
            Error::Configuration(m),
        ) && m@ == "revocation_cert is not set in configuration"@),
{
    let r = trim(config.revocation_cert.as_str());
    if str_eq(r, "default") {
        return Ok(join_path(config.work_dir.as_str(), DEFAULT_CERT_PATH));
    }
    if r.unicode_len() == 0 {
        proof {
            reveal_strlit("default");
            assert("default"@.len() > 0);
        }
        return Err(Error::Configuration("revocation_cert is not set in configuration".to_owned()));
    }
    Ok(join_path(config.work_dir.as_str(), r))
}

/// The `k`-th place, in search order, where the action `action` may be:
/// pre-installed, payload, pre-installed `.py`, payload `.py`.
pub open spec fn candidate(payload_dir: Seq<char>, actions_dir: Seq<char>, action: Seq<char>, k: int) -> Seq<char> {
    let dir = if k % 2 == 1 { payload_dir } else { actions_dir };
    let name = if k >= 2 { action + seq!['.', 'p', 'y'] } else { action };
    join_spec(dir, name)
}

/// Whether the `k`-th place in search order is taken: it exists, and it is
/// not in the payload where payload actions are not allowed.
pub open spec fn usable(k: int, allow_payload_actions: bool, exists: Seq<bool>) -> bool {
    exists[k] && (k % 2 == 0 || allow_payload_actions)
}

/// The first usable place in search order, if any.
pub open spec fn first_usable(allow_payload_actions: bool, exists: Seq<bool>) -> Option<int> {
    if usable(0, allow_payload_actions, exists) {
        Some(0)
    } else if usable(1, allow_payload_actions, exists) {
        Some(1)
    } else if usable(2, allow_payload_actions, exists) {
        Some(2)
    } else if usable(3, allow_payload_actions, exists) {
        Some(3)
    } else {
        None
    }
}

/// The pre-installed shim that runs every interpreted action.
pub open spec fn shim_path(actions_dir: Seq<char>) -> Seq<char> {
    join_spec(actions_dir, "shim.py"@)
}

/// An action name that stays inside the directory it is looked up in: not
/// empty, no `/`, and neither `.` nor `..`.
pub open spec fn safe_action_name(action: Seq<char>) -> bool {
    action.len() > 0 && !action.contains('/') && action != seq!['.'] && action != seq!['.', '.']
}

/// Whether `action` is a name that stays inside its directory.
pub fn is_safe_action_name(action: &str) -> (r: bool)
    ensures
        r == safe_action_name(action@),
{
    let cs = crate::text::chars_of(action);
    let n = cs.len();
    if n == 0 {
        return false;
    }
    let mut i: usize = 0;
    while i < n
        invariant
            cs@ == action@,
            n == cs.len(),
            i <= n,
            forall|j: int| 0 <= j < i ==> cs@[j] != '/',
        decreases n - i,
    {
        if cs[i] == '/' {
            assert(action@.contains('/')) by {
                assert(action@[i as int] == '/');
            }
            return false;
        }
        i = i + 1;
    }
    if n == 1 && cs[0] == '.' {
        assert(action@ =~= seq!['.']);
        return false;
    }
    if n == 2 && cs[0] == '.' && cs[1] == '.' {
        assert(action@ =~= seq!['.', '.']);
        return false;
    }
    assert(n != 1 || action@ != seq!['.']) by {
        if n == 1 && action@ == seq!['.'] {
            assert(action@[0] == '.');
        }
    }
    assert(n != 2 || action@ != seq!['.', '.']) by {
        if n == 2 && action@ == seq!['.', '.'] {
            assert(action@[0] == '.' && action@[1] == '.');
        }
    }
    true
}

/// The four places, in search order, where the action `action` is looked
/// for.
pub fn candidate_paths(payload_dir: &str, actions_dir: &str, action: &str) -> (r: Vec<String>)
    ensures
        r.len() == 4,
        forall|k: int| 0 <= k < 4 ==> #[trigger] r@[k]@ == candidate(payload_dir@, actions_dir@, action@, k),
{
    let mut py_action: String = action.to_owned();
    proof {
        reveal_strlit(".py");
    }
    py_action.append(".py");
    assert(py_action@ =~= action@ + seq!['.', 'p', 'y']);
    let mut r: Vec<String> = Vec::new();
    r.push(join_path(actions_dir, action));
    r.push(join_path(payload_dir, action));
    r.push(join_path(actions_dir, py_action.as_str()));
    r.push(join_path(payload_dir, py_action.as_str()));
    r
}

/// What an action resolves to, given which of its four places exist:
/// the executable, whether it is interpreted, and whether it comes from the
/// payload; `None` where the name leaves its directory or no usable place
/// exists.
pub open spec fn resolution(
    payload_dir: Seq<char>,
    actions_dir: Seq<char>,
    action: Seq<char>,
    allow_payload_actions: bool,
    exists: Seq<bool>,
) -> Option<(Seq<char>, bool, bool)> {
    if !safe_action_name(action) {
        None
    } else {
        match first_usable(allow_payload_actions, exists) {
        None => None,
        Some(k) => Some(
            (
                if k >= 2 {
                    shim_path(actions_dir)
                } else {
                    candidate(payload_dir, actions_dir, action, k)
                },
                k >= 2,
                k % 2 == 1,
            ),
        ),
        }
    }
}

/// The message of the error for an action that cannot be found.
pub open spec fn not_found_message(action: Seq<char>) -> Seq<char> {
    "Could not find action "@ + action
}

/// `r` is what `res` describes: the resolved action, or the not-found error.
pub open spec fn resolved_as(
    r: Result<(String, bool, bool), Error>,
    res: Option<(Seq<char>, bool, bool)>,
    action: Seq<char>,
) -> bool {
    match res {
        Some(t) => r matches Ok(v) && v.0@ == t.0 && v.1 == t.1 && v.2 == t.2,
        None => r matches Err(Error::NotFound(m)) && m@ == not_found_message(action),
    }
}

/// Resolves `action` from which of its four places exist, `exists` in
/// search order: pre-installed places shadow payload ones, plain
/// executables shadow their `.py` namesakes, payload places count only when
/// allowed, and an interpreted action runs through the pre-installed shim.
pub fn resolve_action(
    payload_dir: &str,
    actions_dir: &str,
    action: &str,
    allow_payload_actions: bool,
    exists: [bool; 4],
) -> (r: Result<(String, bool, bool), Error>)
    ensures
        resolved_as(
            r,
            resolution(payload_dir@, actions_dir@, action@, allow_payload_actions, exists@),
            action@,
        ),
{
    let mut py_action: String = action.to_owned();
    proof {
        reveal_strlit(".py");
        reveal_strlit("shim.py");
        reveal_strlit("Could not find action ");
    }
    py_action.append(".py");
    assert(py_action@ =~= action@ + seq!['.', 'p', 'y']);
    if !is_safe_action_name(action) {
        let mut m: String = "Could not find action ".to_owned();
        m.append(action);
        Err(Error::NotFound(m))
    } else if exists[0] {
        Ok((join_path(actions_dir, action), false, false))
    } else if exists[1] && allow_payload_actions {
        Ok((join_path(payload_dir, action), false, true))
    } else if exists[2] {
        Ok((join_path(actions_dir, "shim.py"), true, false))
    } else if exists[3] && allow_payload_actions {
        Ok((join_path(actions_dir, "shim.py"), true, true))
    } else {
        let mut m: String = "Could not find action ".to_owned();
        m.append(action);
        Err(Error::NotFound(m))
    }
}

/// Relies on `std::path::Path::exists`: whether something is at `p` now.
/// What is on disk may change, so nothing is promised of the answer.
#[verifier::external_body]
fn path_exists(p: &str) -> bool {
    std::path::Path::new(p).exists()
}

/// Looks for the action `action` in its four places, in search order, and
/// resolves it as `resolve_action` does from what was found on disk.
pub fn lookup_action(
    payload_dir: &str,
    actions_dir: &str,
    action: &str,
    allow_payload_actions: bool,
) -> (r: Result<(String, bool, bool), Error>)
    ensures
        exists|e: Seq<bool>|
            e.len() == 4 && #[trigger] resolved_as(
                r,
                resolution(payload_dir@, actions_dir@, action@, allow_payload_actions, e),
                action@,
            ),
{
    let mut found = [false, false, false, false];
    if is_safe_action_name(action) {
        let paths = candidate_paths(payload_dir, actions_dir, action);
        let e0 = path_exists(paths[0].as_str());
        let e1 = allow_payload_actions && path_exists(paths[1].as_str());
        let e2 = path_exists(paths[2].as_str());
        let e3 = allow_payload_actions && path_exists(paths[3].as_str());
        found = [e0, e1, e2, e3];
    }
    let r = resolve_action(payload_dir, actions_dir, action, allow_payload_actions, found);
    assert(found@.len() == 4);
    r
}

/// An interpreted action always runs through the pre-installed shim,
/// whether it came from the payload or was pre-installed.
pub proof fn lemma_interpreted_runs_shim(
    payload_dir: Seq<char>,
    actions_dir: Seq<char>,
    action: Seq<char>,
    allow_payload_actions: bool,
    exists: Seq<bool>,
)
    requires
        exists.len() == 4,
    ensures
        resolution(payload_dir, actions_dir, action, allow_payload_actions, exists) matches Some(t)
            ==> (t.1 ==> t.0 == shim_path(actions_dir)),
{
}

/// Where payload actions are not allowed, an action never resolves to the
/// payload: the executable is the pre-installed action or the shim.
pub proof fn lemma_no_payload_when_disallowed(
    payload_dir: Seq<char>,
    actions_dir: Seq<char>,
    action: Seq<char>,
    exists: Seq<bool>,
)
    requires
        exists.len() == 4,
    ensures
        resolution(payload_dir, actions_dir, action, false, exists) matches Some(t) ==> (!t.2
            && safe_action_name(action) && (t.0 == join_spec(actions_dir, action) || t.0
            == shim_path(actions_dir))),
{
}

/// The actions to run: the non-empty trimmed comma-separated entries of the
/// configured list, then the non-empty trimmed lines of the payload's action
/// list file where there is one.
pub open spec fn action_list_spec(config_actions: Seq<char>, file: Option<Seq<char>>) -> Seq<
    Seq<char>,
> {
    nonempty_trimmed(split_on(config_actions, ','))
        + match file {
        Some(f) => nonempty_trimmed(split_on(f, '\n')),
        None => Seq::<Seq<char>>::empty(),
    }
}

/// The view of an optional string.
pub open spec fn opt_view(o: Option<&str>) -> Option<Seq<char>> {
    match o {
        Some(s) => Some(s@),
        None => None,
    }
}

/// Composes the action list from the configured actions and the contents
/// of the payload's action list file, if it exists. Order is kept and
/// duplicates stay.
pub fn compose_action_list(config_actions: &str, action_list_file: Option<&str>) -> (r: Vec<String>)
    ensures
        views(r@) == action_list_spec(config_actions@, opt_view(action_list_file)),
{
    let mut r: Vec<String> = Vec::new();
    assert(views(r@) =~= Seq::<Seq<char>>::empty());
    push_split_trimmed(&mut r, config_actions, ',');
    assert(views(r@) =~= nonempty_trimmed(split_on(config_actions@, ',')));
    match action_list_file {
        Some(f) => {
            push_split_trimmed(&mut r, f, '\n');
        },
        None => {
            assert(views(r@) =~= action_list_spec(config_actions@, opt_view(action_list_file)));
        },
    }
    r
}

/// A revocation notification: a JSON message and its signature.
#[derive(Clone, Debug)]
pub struct RevocationMessage {
    pub msg: String,
    pub signature: String,
}

/// The notification made of the `signature` and `msg` fields, which must
/// both be strings.
pub fn revocation_message(signature: Option<String>, msg: Option<String>) -> (r: Result<
    RevocationMessage,
    Error,
>)
    ensures
        (signature is Some && msg is Some) ==> (r matches Ok(m) && m.signature == signature.unwrap()
            && m.msg == msg.unwrap()),
        !(signature is Some && msg is Some) ==> r matches Err(Error::InvalidRequest),
{
    match (signature, msg) {
        (Some(s), Some(m)) => Ok(RevocationMessage { msg: m, signature: s }),
        _ => Err(Error::InvalidRequest),
    }
}

/// Reads a notification from the JSON text `raw`: an object whose `msg` and
/// `signature` members are strings; anything else is an invalid request.
pub fn parse_revocation_body(raw: &str) -> (r: Result<RevocationMessage, Error>)
    ensures
        (json_str_member(raw@, "signature"@) is Some && json_str_member(raw@, "msg"@) is Some) ==> (
        r matches Ok(x) && x.signature@ == json_str_member(raw@, "signature"@).unwrap() && x.msg@
            == json_str_member(raw@, "msg"@).unwrap()),
        (json_str_member(raw@, "signature"@) is None || json_str_member(raw@, "msg"@) is None)
            ==> r matches Err(Error::InvalidRequest),
        !json_parses(raw@) ==> r matches Err(Error::InvalidRequest),
{
    let signature = json_member_str(raw, "signature");
    let msg = json_member_str(raw, "msg");
    revocation_message(signature, msg)
}

/// What a verified notification asks for: the payload handed to each action
/// as compact JSON, and the actions, in order.
#[derive(Clone, Debug)]
pub struct RevocationPlan {
    pub payload: String,
    pub actions: Vec<String>,
}

/// Decides what a notification starts. Nothing runs unless its signature
/// verified (`verified`) and its message is JSON; then every action of the
/// composed list runs with the message as payload.
pub fn process_revocation(
    message: &RevocationMessage,
    verified: bool,
    config_actions: &str,
    action_list_file: Option<&str>,
) -> (r: Result<RevocationPlan, Error>)
    ensures
        revocation_outcome(message.msg@, verified, config_actions@, opt_view(action_list_file))
            is None ==> r matches Err(Error::InvalidRequest),
        revocation_outcome(message.msg@, verified, config_actions@, opt_view(action_list_file))
            matches Some(a) ==> (r matches Ok(p) && views(p.actions@) == a && p.payload@
            == json_compact(message.msg@)),
{
    if !verified {
        return Err(Error::InvalidRequest);
    }
    match compact_json_text(message.msg.as_str()) {
        None => Err(Error::InvalidRequest),
        Some(payload) => {
            let actions = compose_action_list(config_actions, action_list_file);
            Ok(RevocationPlan { payload, actions })
        },
    }
}

/// A notification whose signature did not verify starts no action.
pub proof fn lemma_unverified_runs_nothing(
    msg: Seq<char>,
    config_actions: Seq<char>,
    file: Option<Seq<char>>,
)
    ensures
        revocation_outcome(msg, false, config_actions, file) is None,
{
}

/// The actions that a notification with message `msg` starts, where
/// `verified` tells whether its signature verified; `None` where it starts
/// none.
pub open spec fn revocation_outcome(
    msg: Seq<char>,
    verified: bool,
    config_actions: Seq<char>,
    file: Option<Seq<char>>,
) -> Option<Seq<Seq<char>>> {
    if verified && json_parses(msg) {
        Some(action_list_spec(config_actions, file))
    } else {
        None
    }
}

/// How one action is started: the executable, its arguments, its working
/// directory, and the `PYTHONPATH` it gets when interpreted.
#[derive(Clone, Debug)]
pub struct ActionCommand {
    pub program: String,
    pub args: Vec<String>,
    pub current_dir: String,
    pub python_path: Option<String>,
}

/// The command for the resolved action `resolved` (executable, interpreted,
/// from the payload), with the payload file `json_path`. An interpreted
/// action gets its name before the payload file, and the directory it came
/// from as `PYTHONPATH`.
pub fn action_command(
    payload_dir: &str,
    actions_dir: &str,
    action: &str,
    resolved: &(String, bool, bool),
    json_path: &str,
    work_dir: &str,
) -> (c: ActionCommand)
    ensures
        c.program@ == resolved.0@,
        resolved.1 ==> views(c.args@) == seq![action@, json_path@],
        !resolved.1 ==> views(c.args@) == seq![json_path@],
        c.current_dir@ == work_dir@,
        resolved.1 ==> (c.python_path matches Some(p) && p@ == (if resolved.2 {
            payload_dir@
        } else {
            actions_dir@
        })),
        !resolved.1 ==> c.python_path is None,
{
    let mut args: Vec<String> = Vec::new();
    let python_path = if resolved.1 {
        args.push(action.to_owned());
        if resolved.2 {
            Some(payload_dir.to_owned())
        } else {
            Some(actions_dir.to_owned())
        }
    } else {
        None
    };
    args.push(json_path.to_owned());
    let c = ActionCommand {
        program: resolved.0.clone(),
        args,
        current_dir: work_dir.to_owned(),
        python_path,
    };
    assert(resolved.1 ==> views(c.args@) =~= seq![action@, json_path@]);
    assert(!resolved.1 ==> views(c.args@) =~= seq![json_path@]);
    c
}

/// What a finished action left: its exit code (none when a signal ended
/// it), and what it wrote to stdout and stderr.
#[derive(Clone, Debug)]
pub struct ActionOutput {
    pub code: Option<i32>,
    pub stdout: Vec<u8>,
    pub stderr: Vec<u8>,
}

/// Records the output of the action `action`: kept where it exited with
/// code 0, else the script error that ends the run, with the action's name,
/// exit code and stderr.
pub fn record_action_output(outputs: &mut Vec<ActionOutput>, action: &str, out: ActionOutput) -> (r:
    Result<(), Error>)
    ensures
        out.code == Some(0i32) ==> (r is Ok && final(outputs)@ == old(outputs)@.push(out)),
        out.code != Some(0i32) ==> final(outputs)@ == old(outputs)@,
        out.code != Some(0i32) ==> (r matches Err(Error::Script(n, c, e)) && n@ == action@ && c
            == out.code && e@ == out.stderr@),
{
    match out.code {
        Some(0) => {
            outputs.push(out);
            Ok(())
        },
        _ => Err(Error::Script(action.to_owned(), out.code, out.stderr)),
    }
}

} // verus!
