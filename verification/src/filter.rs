//! The security filter: what a JSON-RPC tool call may do.
//!
//! The decision is stated by [`decision`] over the request and two facts about
//! the file path it names that only the machine can tell: the path's canonical
//! form (when it exists on disk) and whether the path is absolute.

use vstd::prelude::*;
use crate::json::{JsonValue, json_quote};
use crate::rule::{Rule, regex_compiles, regex_is_match};
use crate::text::{has_substring, join, concat, contains, owned, text_eq};
use vstd::string::*;

verus! {

/// A JSON-RPC request as the client sent it.
pub struct JsonRpcRequest {
    pub jsonrpc: String,
    pub method: String,
    /// The parameters; `Null` where the request has none.
    pub params: JsonValue,
    pub id: JsonValue,
}

/// The `error` member of a JSON-RPC error response.
pub struct JsonRpcError {
    pub code: i64,
    pub message: String,
    pub data: Option<JsonValue>,
}

/// A JSON-RPC error response.
pub struct JsonRpcErrorResponse {
    pub jsonrpc: String,
    pub id: JsonValue,
    pub error: JsonRpcError,
}

/// What the filter says of a request.
pub enum FilterDecision {
    /// The request may pass.
    Allow,
    /// The request is held back, for the reason given.
    Block(String),
}

impl View for FilterDecision {
    /// `None` for a request that may pass, `Some(reason)` for a blocked one.
    type V = Option<Seq<char>>;

    open spec fn view(&self) -> Option<Seq<char>> {
        match self {
            FilterDecision::Allow => None,
            FilterDecision::Block(reason) => Some(reason@),
        }
    }
}

/// The rules the filter applies.
pub struct SecurityFilter {
    blocked_commands: Vec<Rule>,
    sensitive_file_patterns: Vec<Rule>,
}

/// The patterns of a list of rules.
pub open spec fn patterns_of(rules: Seq<Rule>) -> Seq<Seq<char>> {
    rules.map_values(|r: Rule| r@)
}

// ----- the built-in rules -----

/// Dangerous commands, network tools and encoded-payload tricks.
pub open spec fn builtin_command_patterns() -> Seq<Seq<char>> {
    seq![
        r"(?i)\brm\s+-[rf]{1,2}\b"@,
        r"(?i)\bmkfs\b"@,
        r"(?i)\bdd\b"@,
        r"(?i)\bsh\b|\bbash\b|\bpowershell\b|\bcmd\b"@,
        r"(?i)curl\s+.*\|\s*(sh|bash)"@,
        r"(?i)\bbase64\s+-d\b|\bfrombase64string\b"@,
        r"(?i)\bbytes\.fromhex\b|\bexec\b.*\(.*fromhex"@,
        r"(?i)\b(curl|wget|nc|nslookup|ping)\b.*(id_rsa|\.env|credentials|aws_access_key)"@,
    ]
}

/// Files and folders whose contents must not leave the machine.
pub open spec fn builtin_file_patterns() -> Seq<Seq<char>> {
    seq![
        r"(?i)\.env"@,
        r"(?i)id_rsa|id_dsa|id_ed25519"@,
        r"(?i)\.git/config"@,
        r"(?i)aws/credentials"@,
        r"(?i)ssh/config"@,
    ]
}

/// Every built-in pattern is one that the `regex` crate accepts.
pub open spec fn builtin_rules_compile() -> bool {
    &&& forall|i: int| 0 <= i < builtin_command_patterns().len()
        ==> regex_compiles(#[trigger] builtin_command_patterns()[i])
    &&& forall|i: int| 0 <= i < builtin_file_patterns().len()
        ==> regex_compiles(#[trigger] builtin_file_patterns()[i])
}

fn builtin_command_list() -> (v: Vec<&'static str>)
    ensures
        v@.map_values(|s: &str| s@) == builtin_command_patterns(),
{
    let v = vec![
        r"(?i)\brm\s+-[rf]{1,2}\b",
        r"(?i)\bmkfs\b",
        r"(?i)\bdd\b",
        r"(?i)\bsh\b|\bbash\b|\bpowershell\b|\bcmd\b",
        r"(?i)curl\s+.*\|\s*(sh|bash)",
        r"(?i)\bbase64\s+-d\b|\bfrombase64string\b",
        r"(?i)\bbytes\.fromhex\b|\bexec\b.*\(.*fromhex",
        r"(?i)\b(curl|wget|nc|nslookup|ping)\b.*(id_rsa|\.env|credentials|aws_access_key)",
    ];
    assert(v@.map_values(|s: &str| s@) =~= builtin_command_patterns());
    v
}

fn builtin_file_list() -> (v: Vec<&'static str>)
    ensures
        v@.map_values(|s: &str| s@) == builtin_file_patterns(),
{
    let v = vec![
        r"(?i)\.env",
        r"(?i)id_rsa|id_dsa|id_ed25519",
        r"(?i)\.git/config",
        r"(?i)aws/credentials",
        r"(?i)ssh/config",
    ];
    assert(v@.map_values(|s: &str| s@) =~= builtin_file_patterns());
    v
}

/// A list of texts compiles exactly when the list of their views does.
proof fn lemma_all_compile(texts: Seq<&str>, patterns: Seq<Seq<char>>)
    requires
        texts.map_values(|s: &str| s@) == patterns,
    ensures
        (forall|i: int| 0 <= i < texts.len() ==> regex_compiles(#[trigger] texts[i]@))
            <==> (forall|i: int| 0 <= i < patterns.len() ==> regex_compiles(#[trigger] patterns[i])),
{
    assert(texts.len() == patterns.len());
    assert forall|i: int| 0 <= i < texts.len() implies texts[i]@ == patterns[i] by {
        assert(texts.map_values(|s: &str| s@)[i] == texts[i]@);
    }
    if forall|i: int| 0 <= i < texts.len() ==> regex_compiles(#[trigger] texts[i]@) {
        assert forall|i: int| 0 <= i < patterns.len() implies regex_compiles(#[trigger] patterns[i]) by {
            assert(regex_compiles(texts[i]@));
        }
    }
    if forall|i: int| 0 <= i < patterns.len() ==> regex_compiles(#[trigger] patterns[i]) {
        assert forall|i: int| 0 <= i < texts.len() implies regex_compiles(#[trigger] texts[i]@) by {
            assert(regex_compiles(patterns[i]));
        }
    }
}

/// Compiles each pattern; `None` as soon as one is refused.
fn compile_all(patterns: &Vec<&str>) -> (r: Option<Vec<Rule>>)
    ensures
        r is Some <==> forall|i: int| 0 <= i < patterns@.len() ==> regex_compiles(#[trigger] patterns@[i]@),
        r matches Some(rules) ==> patterns_of(rules@) == patterns@.map_values(|s: &str| s@),
{
    let mut rules: Vec<Rule> = Vec::new();
    let mut i: usize = 0;
    while i < patterns.len()
        invariant
            i <= patterns@.len(),
            rules@.len() == i,
            forall|k: int| 0 <= k < i ==> regex_compiles(#[trigger] patterns@[k]@),
            forall|k: int| 0 <= k < i ==> (#[trigger] rules@[k])@ == patterns@[k]@,
        decreases patterns.len() - i,
    {
        match Rule::new(patterns[i]) {
            Ok(rule) => rules.push(rule),
            Err(_) => return None,
        }
        i = i + 1;
    }
    assert(patterns_of(rules@) =~= patterns@.map_values(|s: &str| s@));
    Some(rules)
}

// ----- reading the request -----

/// The text of the string member `key` of `v`, if there is one.
pub open spec fn str_member(v: JsonValue, key: Seq<char>) -> Option<Seq<char>> {
    match v.get_spec(key) {
        Some(x) => x.as_str_spec(),
        None => None,
    }
}

/// The first of the candidate texts that is present, else the empty text.
pub open spec fn first_text(candidates: Seq<Option<Seq<char>>>) -> Seq<char>
    decreases candidates.len(),
{
    if candidates.len() == 0 {
        Seq::empty()
    } else {
        match candidates[0] {
            Some(t) => t,
            None => first_text(candidates.drop_first()),
        }
    }
}

/// The method names under which a client calls a tool.
pub open spec fn is_tool_call(method: Seq<char>) -> bool {
    method == "tools/call"@ || method == "callTool"@
}

/// The name of the called tool (empty when it has none).
pub open spec fn tool_name(params: JsonValue) -> Seq<char> {
    first_text(seq![str_member(params, "name"@)])
}

/// The arguments of the called tool (`Null` when it has none).
pub open spec fn tool_arguments(params: JsonValue) -> JsonValue {
    match params.get_spec("arguments"@) {
        Some(a) => a,
        None => JsonValue::Null,
    }
}

/// The text of an array item: its string, or empty for any other value.
pub open spec fn item_text(v: JsonValue) -> Seq<char> {
    match v.as_str_spec() {
        Some(s) => s,
        None => Seq::empty(),
    }
}

/// The `args` array of the arguments, its items joined with spaces.
pub open spec fn args_text(args: JsonValue) -> Seq<char> {
    match args.get_spec("args"@) {
        Some(JsonValue::Array(items)) => join(items@.map_values(|x: JsonValue| item_text(x)), " "@),
        _ => Seq::empty(),
    }
}

/// The command line that a command tool would run.
pub open spec fn command_text(args: JsonValue) -> Seq<char> {
    first_text(seq![str_member(args, "command"@), str_member(args, "cmd"@)]) + " "@ + args_text(args)
}

/// The file path that a file tool would touch.
pub open spec fn path_text(args: JsonValue) -> Seq<char> {
    first_text(seq![str_member(args, "path"@), str_member(args, "filename"@)])
}

/// The contents that a writing tool would write.
pub open spec fn content_text(args: JsonValue) -> Seq<char> {
    first_text(seq![str_member(args, "content"@), str_member(args, "contents"@), str_member(args, "text"@)])
}

/// Tools that run commands, by their name.
pub open spec fn is_command_tool(name: Seq<char>) -> bool {
    has_substring(name, "command"@) || has_substring(name, "execute"@) || has_substring(name, "bash"@)
        || has_substring(name, "run"@)
}

/// Tools that read or change files, by their name.
pub open spec fn is_file_tool(name: Seq<char>) -> bool {
    has_substring(name, "file"@) || has_substring(name, "read"@) || has_substring(name, "write"@)
        || has_substring(name, "patch"@) || has_substring(name, "edit"@)
}

/// Tools that write file contents, by their name.
pub open spec fn is_write_tool(name: Seq<char>) -> bool {
    has_substring(name, "write"@) || has_substring(name, "patch"@) || has_substring(name, "edit"@)
}

// ----- the decision -----

/// The first pattern, in order, that matches `text`.
pub open spec fn first_match(patterns: Seq<Seq<char>>, text: Seq<char>) -> Option<Seq<char>>
    decreases patterns.len(),
{
    if patterns.len() == 0 {
        None
    } else if regex_is_match(patterns[0], text) {
        Some(patterns[0])
    } else {
        first_match(patterns.drop_first(), text)
    }
}

/// A block naming the first pattern that matches `text`, after `prefix`.
pub open spec fn rule_block(patterns: Seq<Seq<char>>, text: Seq<char>, prefix: Seq<char>) -> Option<Seq<char>> {
    match first_match(patterns, text) {
        Some(p) => Some(prefix + p),
        None => None,
    }
}

/// The verdict on the command line of a command tool.
pub open spec fn command_verdict(command_patterns: Seq<Seq<char>>, name: Seq<char>, args: JsonValue) -> Option<Seq<char>> {
    if is_command_tool(name) {
        rule_block(command_patterns, command_text(args), "Dangerous execution pattern matched rule: "@)
    } else {
        None
    }
}

/// Sensitive directories, as they occur in a resolved path: the SSH and AWS
/// credential folders, a repository's git configuration, and AppData.
pub open spec fn names_sensitive_directory(canonical: Seq<char>) -> bool {
    has_substring(canonical, ".ssh"@) || has_substring(canonical, ".aws"@) || has_substring(canonical, ".git/config"@)
        || has_substring(canonical, "AppData"@)
}

/// A path written relative to the user's home directory (`~/...`), which the
/// file system does not expand.
pub open spec fn is_home_path(path: Seq<char>) -> bool {
    path.len() > 0 && path[0] == '~'
}

/// What `Path::is_absolute` can answer `true` for on any platform: a path
/// that starts with a root (`/` or `\\`) or with a drive letter and a colon.
pub open spec fn may_be_absolute(path: Seq<char>) -> bool {
    path.len() > 0 && (path[0] == '/' || path[0] == '\\' || (path.len() >= 2 && path[1] == ':'))
}

/// Sensitive system directories, as they occur in an absolute path.
pub open spec fn names_sensitive_system_directory(path: Seq<char>) -> bool {
    has_substring(path, ".ssh"@) || has_substring(path, ".aws"@) || has_substring(path, "AppData"@)
        || has_substring(path, ".git"@)
}

/// The verdict on where a path leads: on its canonical form where that
/// exists, else on the path itself when it is absolute or starts at the home
/// directory.
pub open spec fn path_verdict(path: Seq<char>, canonical: Option<Seq<char>>, absolute: bool) -> Option<Seq<char>> {
    match canonical {
        Some(c) => if names_sensitive_directory(c) {
            Some("Resolved canonical path accesses sensitive directory: "@ + c)
        } else {
            None
        },
        None => if absolute && names_sensitive_system_directory(path) {
            Some("Absolute path targets sensitive system directory: "@ + path)
        } else if is_home_path(path) && names_sensitive_directory(path) {
            Some("Home path targets sensitive system directory: "@ + path)
        } else {
            None
        },
    }
}

/// The verdict on a file tool: its path, then the sensitive-file rules on the
/// path, then, for a writing tool, the command rules on the written contents.
pub open spec fn file_verdict(
    command_patterns: Seq<Seq<char>>,
    file_patterns: Seq<Seq<char>>,
    name: Seq<char>,
    args: JsonValue,
    canonical: Option<Seq<char>>,
    absolute: bool,
) -> Option<Seq<char>> {
    if !is_file_tool(name) {
        None
    } else {
        let path = path_text(args);
        match path_verdict(path, canonical, absolute) {
            Some(r) => Some(r),
            None => match rule_block(file_patterns, path, "Attempt to access sensitive file matching rule: "@) {
                Some(r) => Some(r),
                None => if is_write_tool(name) {
                    rule_block(command_patterns, content_text(args), "File content contains blocked execution signature: "@)
                } else {
                    None
                },
            },
        }
    }
}

/// The filter's decision on `req`: `None` lets it pass, `Some(reason)` blocks it.
/// `canonical` is the canonical form of the request's path if it exists on
/// disk, and `absolute` whether that path is absolute.
pub open spec fn decision(
    command_patterns: Seq<Seq<char>>,
    file_patterns: Seq<Seq<char>>,
    req: JsonRpcRequest,
    canonical: Option<Seq<char>>,
    absolute: bool,
) -> Option<Seq<char>> {
    if !is_tool_call(req.method@) {
        None
    } else {
        let name = tool_name(req.params);
        let args = tool_arguments(req.params);
        match command_verdict(command_patterns, name, args) {
            Some(r) => Some(r),
            None => file_verdict(command_patterns, file_patterns, name, args, canonical, absolute),
        }
    }
}

/// The path whose canonical form the decision on `req` needs, if any.
pub open spec fn path_needed(command_patterns: Seq<Seq<char>>, req: JsonRpcRequest) -> Option<Seq<char>> {
    let name = tool_name(req.params);
    let args = tool_arguments(req.params);
    if is_tool_call(req.method@) && command_verdict(command_patterns, name, args) is None && is_file_tool(name) {
        Some(path_text(args))
    } else {
        None
    }
}

/// The text of an optional string.
pub open spec fn opt_text(o: Option<&str>) -> Option<Seq<char>> {
    match o {
        Some(s) => Some(s@),
        None => None,
    }
}

/// Tells whether `path` is absolute, with `std::path::Path::is_absolute`.
///
/// Trusted: the exact answer depends on the platform (on Unix a path is
/// absolute when it starts with the root `/`; on Windows when it has a prefix,
/// such as `C:` or `\\server\share`, and a root). What holds on every platform
/// is stated: an absolute path starts with `/`, with `\\`, or with a drive
/// letter and a colon.
#[verifier::external_body]
fn path_is_absolute(path: &str) -> (r: bool)
    ensures
        r ==> may_be_absolute(path@),
{
    std::path::Path::new(path).is_absolute()
}

/// Whether `path` starts with `~`.
fn starts_with_tilde(path: &str) -> (r: bool)
    ensures
        r == is_home_path(path@),
{
    let chars = crate::text::chars_of(path);
    chars.len() > 0 && chars[0] == '~'
}

// ----- reading the request, executably -----

fn str_member_exec<'a>(v: &'a JsonValue, key: &str) -> (r: Option<&'a str>)
    ensures
        opt_text(r) == str_member(*v, key@),
{
    match v.get(key) {
        Some(x) => x.as_str(),
        None => None,
    }
}

fn first_of_two<'a>(a: Option<&'a str>, b: Option<&'a str>) -> (r: &'a str)
    ensures
        r@ == first_text(seq![opt_text(a), opt_text(b)]),
{
    proof {
        reveal_with_fuel(first_text, 3);
        reveal_strlit("");
    }
    let ghost cands = seq![opt_text(a), opt_text(b)];
    assert(cands.drop_first() =~= seq![opt_text(b)]);
    assert(cands.drop_first().drop_first() =~= Seq::<Option<Seq<char>>>::empty());
    match a {
        Some(s) => s,
        None => match b {
            Some(s) => s,
            None => "",
        },
    }
}


/// The text of an optional owned string.
pub open spec fn opt_string(o: Option<String>) -> Option<Seq<char>> {
    match o {
        Some(s) => Some(s@),
        None => None,
    }
}

fn item_text_exec(v: &JsonValue) -> (r: &str)
    ensures
        r@ == item_text(*v),
{
    match v.as_str() {
        Some(s) => s,
        None => {
            proof { reveal_strlit(""); }
            ""
        },
    }
}

fn args_text_exec(args: &JsonValue) -> (r: String)
    ensures
        r@ == args_text(*args),
{
    match args.get("args") {
        Some(JsonValue::Array(items)) => {
            let ghost parts = items@.map_values(|x: JsonValue| item_text(x));
            let mut out = String::new();
            let mut i: usize = 0;
            proof { reveal_strlit(" "); }
            assert(parts.take(0) =~= Seq::<Seq<char>>::empty());
            while i < items.len()
                invariant
                    i <= items@.len(),
                    parts == items@.map_values(|x: JsonValue| item_text(x)),
                    out@ == join(parts.take(i as int), " "@),
                    " "@ == seq![' '],
                decreases items.len() - i,
            {
                let piece = item_text_exec(&items[i]);
                assert(parts.take(i + 1).drop_last() =~= parts.take(i as int));
                assert(parts.take(i + 1).last() == piece@);
                if i == 0 {
                    assert(parts.take(1) =~= seq![piece@]);
                    out.append(piece);
                } else {
                    out.append(" ");
                    out.append(piece);
                }
                i = i + 1;
            }
            assert(parts.take(items@.len() as int) =~= parts);
            out
        },
        _ => {
            String::new()
        },
    }
}

/// The first rule, in order, that matches `text`.
fn first_rule_match<'a>(rules: &'a Vec<Rule>, text: &str) -> (r: Option<&'a Rule>)
    ensures
        r matches Some(rule) ==> first_match(patterns_of(rules@), text@) == Some(rule@),
        r is None ==> first_match(patterns_of(rules@), text@) is None,
{
    let ghost all = patterns_of(rules@);
    let mut i: usize = 0;
    assert(all.skip(0) =~= all);
    while i < rules.len()
        invariant
            i <= rules@.len(),
            all == patterns_of(rules@),
            first_match(all, text@) == first_match(all.skip(i as int), text@),
        decreases rules.len() - i,
    {
        assert(all.skip(i as int).drop_first() =~= all.skip(i + 1));
        assert(all.skip(i as int)[0] == rules@[i as int]@);
        if rules[i].is_match(text) {
            return Some(&rules[i]);
        }
        i = i + 1;
    }
    assert(all.skip(i as int).len() == 0);
    None
}

/// A block naming the first rule that matches `text`, after `prefix`.
fn rule_block_exec(rules: &Vec<Rule>, text: &str, prefix: &str) -> (r: Option<String>)
    ensures
        opt_string(r) == rule_block(patterns_of(rules@), text@, prefix@),
{
    match first_rule_match(rules, text) {
        Some(rule) => Some(concat(prefix, rule.as_str())),
        None => None,
    }
}

fn is_tool_call_exec(method: &str) -> (r: bool)
    ensures
        r == is_tool_call(method@),
{
    text_eq(method, "tools/call") || text_eq(method, "callTool")
}

fn is_command_tool_exec(name: &str) -> (r: bool)
    ensures
        r == is_command_tool(name@),
{
    contains(name, "command") || contains(name, "execute") || contains(name, "bash") || contains(name, "run")
}

fn is_file_tool_exec(name: &str) -> (r: bool)
    ensures
        r == is_file_tool(name@),
{
    contains(name, "file") || contains(name, "read") || contains(name, "write") || contains(name, "patch")
        || contains(name, "edit")
}

fn is_write_tool_exec(name: &str) -> (r: bool)
    ensures
        r == is_write_tool(name@),
{
    contains(name, "write") || contains(name, "patch") || contains(name, "edit")
}

fn tool_name_exec(params: &JsonValue) -> (r: &str)
    ensures
        r@ == tool_name(*params),
{
    proof {
        reveal_with_fuel(first_text, 2);
        reveal_strlit("");
    }
    let ghost cands = seq![str_member(*params, "name"@)];
    assert(cands.drop_first() =~= Seq::<Option<Seq<char>>>::empty());
    match str_member_exec(params, "name") {
        Some(s) => s,
        None => "",
    }
}

fn path_text_exec(args: &JsonValue) -> (r: &str)
    ensures
        r@ == path_text(*args),
{
    first_of_two(str_member_exec(args, "path"), str_member_exec(args, "filename"))
}

fn content_text_exec(args: &JsonValue) -> (r: &str)
    ensures
        r@ == content_text(*args),
{
    let a = str_member_exec(args, "content");
    let b = str_member_exec(args, "contents");
    let c = str_member_exec(args, "text");
    proof {
        reveal_with_fuel(first_text, 4);
        reveal_strlit("");
    }
    let ghost cands = seq![opt_text(a), opt_text(b), opt_text(c)];
    assert(cands.drop_first() =~= seq![opt_text(b), opt_text(c)]);
    assert(cands.drop_first().drop_first() =~= seq![opt_text(c)]);
    assert(cands.drop_first().drop_first().drop_first() =~= Seq::<Option<Seq<char>>>::empty());
    match a {
        Some(s) => s,
        None => match b {
            Some(s) => s,
            None => match c {
                Some(s) => s,
                None => "",
            },
        },
    }
}

fn command_text_exec(args: &JsonValue) -> (r: String)
    ensures
        r@ == command_text(*args),
{
    let cmd = first_of_two(str_member_exec(args, "command"), str_member_exec(args, "cmd"));
    let rest = args_text_exec(args);
    let mut out = concat(cmd, " ");
    out.append(rest.as_str());
    out
}

/// The arguments of the tool call (`Null` when there are none).
fn tool_arguments_exec(params: &JsonValue) -> (r: &JsonValue)
    ensures
        *r == tool_arguments(*params),
{
    match params.get("arguments") {
        Some(a) => a,
        None => &JsonValue::Null,
    }
}


fn path_verdict_exec(path: &str, canonical: Option<&str>, absolute: bool) -> (r: Option<String>)
    ensures
        opt_string(r) == path_verdict(path@, opt_text(canonical), absolute),
{
    match canonical {
        Some(c) => {
            if contains(c, ".ssh") || contains(c, ".aws") || contains(c, ".git/config") || contains(c, "AppData") {
                Some(concat("Resolved canonical path accesses sensitive directory: ", c))
            } else {
                None
            }
        },
        None => {
            let sensitive = contains(path, ".ssh") || contains(path, ".aws") || contains(path, "AppData")
                || contains(path, ".git");
            if absolute && sensitive {
                Some(concat("Absolute path targets sensitive system directory: ", path))
            } else if starts_with_tilde(path) && (contains(path, ".ssh") || contains(path, ".aws")
                || contains(path, ".git/config") || contains(path, "AppData")) {
                Some(concat("Home path targets sensitive system directory: ", path))
            } else {
                None
            }
        },
    }
}

/// The error response text for a blocked request with the given id (as JSON
/// text) and reason, laid out as serde_json writes a JSON-RPC error response.
pub open spec fn error_response_text(id_json: Seq<char>, message: Seq<char>) -> Seq<char> {
    "{\"jsonrpc\":\"2.0\",\"id\":"@ + id_json + ",\"error\":{\"code\":-32602,\"message\":"@
        + json_quote("[TALOS BLOCK] "@ + message) + "}}"@
}

impl JsonRpcError {
    /// The error that answers a request held back for `reason`: code -32602
    /// (invalid params, used for security refusals), the reason marked as the
    /// proxy's, no data.
    pub fn security_block(reason: &str) -> (e: JsonRpcError)
        ensures
            e.code == -32602,
            e.message@ == "[TALOS BLOCK] "@ + reason@,
            e.data is None,
    {
        JsonRpcError { code: -32602, message: concat("[TALOS BLOCK] ", reason), data: None }
    }
}

impl SecurityFilter {
    /// The patterns of the blocked-command rules, in order.
    pub closed spec fn command_patterns(&self) -> Seq<Seq<char>> {
        patterns_of(self.blocked_commands@)
    }

    /// The patterns of the sensitive-file rules, in order.
    pub closed spec fn file_patterns(&self) -> Seq<Seq<char>> {
        patterns_of(self.sensitive_file_patterns@)
    }

    /// The filter with the built-in rules.
    pub fn new() -> (f: Self)
        requires
            builtin_rules_compile(),
        ensures
            f.command_patterns() == builtin_command_patterns(),
            f.file_patterns() == builtin_file_patterns(),
    {
        let commands = builtin_command_list();
        let files = builtin_file_list();
        proof {
            assert forall|i: int| 0 <= i < commands@.len() implies regex_compiles(#[trigger] commands@[i]@) by {
                assert(commands@.map_values(|s: &str| s@)[i] == commands@[i]@);
            }
            assert forall|i: int| 0 <= i < files@.len() implies regex_compiles(#[trigger] files@[i]@) by {
                assert(files@.map_values(|s: &str| s@)[i] == files@[i]@);
            }
        }
        let blocked_commands = match compile_all(&commands) {
            Some(rules) => rules,
            None => unreached(),
        };
        let sensitive_file_patterns = match compile_all(&files) {
            Some(rules) => rules,
            None => unreached(),
        };
        SecurityFilter { blocked_commands, sensitive_file_patterns }
    }

    /// The filter with the built-in rules, or `None` if the `regex` crate
    /// refuses one of them.
    pub fn try_new() -> (r: Option<Self>)
        ensures
            r is Some <==> builtin_rules_compile(),
            r matches Some(f) ==> f.command_patterns() == builtin_command_patterns()
                && f.file_patterns() == builtin_file_patterns(),
    {
        let commands = builtin_command_list();
        let files = builtin_file_list();
        let ok_commands = compile_all(&commands).is_some();
        let ok_files = compile_all(&files).is_some();
        proof {
            lemma_all_compile(commands@, builtin_command_patterns());
            lemma_all_compile(files@, builtin_file_patterns());
        }
        if ok_commands && ok_files {
            Some(Self::new())
        } else {
            None
        }
    }

    fn command_verdict_exec(&self, name: &str, args: &JsonValue) -> (r: Option<String>)
        ensures
            opt_string(r) == command_verdict(self.command_patterns(), name@, *args),
    {
        if is_command_tool_exec(name) {
            let full_cmd = command_text_exec(args);
            rule_block_exec(&self.blocked_commands, full_cmd.as_str(), "Dangerous execution pattern matched rule: ")
        } else {
            None
        }
    }

    fn file_verdict_exec(&self, name: &str, args: &JsonValue, canonical: Option<&str>, absolute: bool) -> (r: Option<String>)
        ensures
            opt_string(r) == file_verdict(
                self.command_patterns(), self.file_patterns(), name@, *args, opt_text(canonical), absolute),
    {
        if !is_file_tool_exec(name) {
            return None;
        }
        let path = path_text_exec(args);
        match path_verdict_exec(path, canonical, absolute) {
            Some(r) => Some(r),
            None => match rule_block_exec(&self.sensitive_file_patterns, path, "Attempt to access sensitive file matching rule: ") {
                Some(r) => Some(r),
                None => if is_write_tool_exec(name) {
                    let content = content_text_exec(args);
                    rule_block_exec(&self.blocked_commands, content, "File content contains blocked execution signature: ")
                } else {
                    None
                },
            },
        }
    }

    /// The path whose canonical form the decision on `req` depends on: the
    /// path of a file tool call that the command rules did not already block.
    pub fn path_to_resolve(&self, req: &JsonRpcRequest) -> (r: Option<String>)
        ensures
            opt_string(r) == path_needed(self.command_patterns(), *req),
    {
        if !is_tool_call_exec(req.method.as_str()) {
            return None;
        }
        let name = tool_name_exec(&req.params);
        let args = tool_arguments_exec(&req.params);
        if self.command_verdict_exec(name, args).is_some() {
            return None;
        }
        if is_file_tool_exec(name) {
            Some(owned(path_text_exec(args)))
        } else {
            None
        }
    }

    /// The decision on `req`, given the canonical form of its path (`None`
    /// where it has none on disk) and whether that path is absolute.
    pub fn inspect_resolved(&self, req: &JsonRpcRequest, canonical: Option<&str>, absolute: bool) -> (d: FilterDecision)
        ensures
            d@ == decision(self.command_patterns(), self.file_patterns(), *req, opt_text(canonical), absolute),
    {
        if !is_tool_call_exec(req.method.as_str()) {
            return FilterDecision::Allow;
        }
        let name = tool_name_exec(&req.params);
        let args = tool_arguments_exec(&req.params);
        let verdict = match self.command_verdict_exec(name, args) {
            Some(r) => Some(r),
            None => self.file_verdict_exec(name, args, canonical, absolute),
        };
        match verdict {
            Some(reason) => FilterDecision::Block(reason),
            None => FilterDecision::Allow,
        }
    }

    /// The decision on `req`, given the canonical form of the path that
    /// [`SecurityFilter::path_to_resolve`] named (`None` where it does not
    /// exist on disk). Whether the path is absolute is asked of the platform.
    pub fn inspect_request(&self, req: &JsonRpcRequest, canonical: Option<&str>) -> (d: FilterDecision)
        ensures
            exists|absolute: bool|
                (absolute ==> canonical is None && may_be_absolute(path_text(tool_arguments(req.params))))
                && d@ == decision(self.command_patterns(), self.file_patterns(), *req, opt_text(canonical), absolute),
    {
        let absolute = match canonical {
            Some(_) => false,
            None => path_is_absolute(path_text_exec(tool_arguments_exec(&req.params))),
        };
        self.inspect_resolved(req, canonical, absolute)
    }

    /// The JSON-RPC error response that answers a blocked request: `id_json`
    /// is the request's id written as JSON, `message` the reason.
    pub fn make_error_response(&self, id_json: &str, message: &str) -> (r: String)
        ensures
            r@ == error_response_text(id_json@, message@),
    {
        let error = JsonRpcError::security_block(message);
        let quoted = crate::json::json_string_literal(error.message.as_str());
        let mut out = concat("{\"jsonrpc\":\"2.0\",\"id\":", id_json);
        out.append(",\"error\":{\"code\":-32602,\"message\":");
        out.append(quoted.as_str());
        out.append("}}");
        out
    }
}

} // verus!
