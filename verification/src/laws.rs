//! Properties of the filter's decision that hold for every request.

use vstd::prelude::*;
use crate::filter::{
    JsonRpcRequest, decision, first_match, rule_block, command_verdict, path_verdict,
    path_needed, is_home_path, names_sensitive_directory, names_sensitive_system_directory, is_tool_call, is_command_tool, is_file_tool, is_write_tool, tool_name,
    tool_arguments, command_text, path_text, content_text,
};
use crate::rule::regex_is_match;
use crate::json::JsonValue;
use crate::text::{has_substring, join};
use crate::filter::{first_text, str_member, item_text, args_text};

verus! {

/// No pattern of the list matches the text exactly when no first match exists.
pub proof fn lemma_first_match_none(patterns: Seq<Seq<char>>, text: Seq<char>)
    ensures
        first_match(patterns, text) is None
            <==> forall|i: int| 0 <= i < patterns.len() ==> !regex_is_match(#[trigger] patterns[i], text),
    decreases patterns.len(),
{
    if patterns.len() > 0 {
        let rest = patterns.drop_first();
        lemma_first_match_none(rest, text);
        assert forall|i: int| 0 < i < patterns.len() implies #[trigger] patterns[i] == rest[i - 1] by {}
        if first_match(patterns, text) is None {
            assert forall|i: int| 0 <= i < patterns.len() implies !regex_is_match(#[trigger] patterns[i], text) by {
                if i > 0 {
                    assert(patterns[i] == rest[i - 1]);
                }
            }
        } else if !regex_is_match(patterns[0], text) {
            assert(first_match(rest, text) is Some);
            let j = choose|j: int| 0 <= j < rest.len() && regex_is_match(#[trigger] rest[j], text);
            assert(patterns[j + 1] == rest[j]);
        }
    }
}

/// The first match is the earliest pattern of the list that matches.
pub proof fn lemma_first_match_some(patterns: Seq<Seq<char>>, text: Seq<char>)
    requires
        first_match(patterns, text) is Some,
    ensures
        exists|j: int|
            0 <= j < patterns.len() && first_match(patterns, text) == Some(#[trigger] patterns[j])
                && regex_is_match(patterns[j], text)
                && forall|k: int| 0 <= k < j ==> !regex_is_match(#[trigger] patterns[k], text),
    decreases patterns.len(),
{
    if !regex_is_match(patterns[0], text) {
        let rest = patterns.drop_first();
        lemma_first_match_some(rest, text);
        let j = choose|j: int|
            0 <= j < rest.len() && first_match(rest, text) == Some(#[trigger] rest[j])
                && regex_is_match(rest[j], text)
                && forall|k: int| 0 <= k < j ==> !regex_is_match(#[trigger] rest[k], text);
        assert(patterns[j + 1] == rest[j]);
        assert forall|k: int| 0 <= k < j + 1 implies !regex_is_match(#[trigger] patterns[k], text) by {
            if k > 0 {
                assert(patterns[k] == rest[k - 1]);
            }
        }
    } else {
        assert(first_match(patterns, text) == Some(patterns[0]));
    }
}

/// Only tool calls are inspected: any other request passes, whatever its
/// contents and wherever its paths lead.
pub proof fn law_non_tool_calls_pass(
    command_patterns: Seq<Seq<char>>,
    file_patterns: Seq<Seq<char>>,
    req: JsonRpcRequest,
    canonical: Option<Seq<char>>,
    absolute: bool,
)
    requires
        req.method@ != "tools/call"@,
        req.method@ != "callTool"@,
    ensures
        decision(command_patterns, file_patterns, req, canonical, absolute) is None,
{
}

/// A command tool call whose command line matches a blocked-command rule is
/// blocked, and the reason names the first such rule.
pub proof fn law_dangerous_command_blocked(
    command_patterns: Seq<Seq<char>>,
    file_patterns: Seq<Seq<char>>,
    req: JsonRpcRequest,
    canonical: Option<Seq<char>>,
    absolute: bool,
    i: int,
)
    requires
        is_tool_call(req.method@),
        is_command_tool(tool_name(req.params)),
        0 <= i < command_patterns.len(),
        regex_is_match(command_patterns[i], command_text(tool_arguments(req.params))),
    ensures
        exists|j: int|
            0 <= j <= i && regex_is_match(command_patterns[j], command_text(tool_arguments(req.params)))
                && decision(command_patterns, file_patterns, req, canonical, absolute)
                    == Some("Dangerous execution pattern matched rule: "@ + #[trigger] command_patterns[j]),
{
    let text = command_text(tool_arguments(req.params));
    lemma_first_match_none(command_patterns, text);
    lemma_first_match_some(command_patterns, text);
    let j = choose|j: int|
        0 <= j < command_patterns.len() && first_match(command_patterns, text) == Some(#[trigger] command_patterns[j])
            && regex_is_match(command_patterns[j], text)
            && forall|k: int| 0 <= k < j ==> !regex_is_match(#[trigger] command_patterns[k], text);
    if j > i {
        assert(!regex_is_match(command_patterns[i], text));
    }
    assert(0 <= j <= i);
}

/// A file tool call whose path matches a sensitive-file rule is blocked.
pub proof fn law_sensitive_file_blocked(
    command_patterns: Seq<Seq<char>>,
    file_patterns: Seq<Seq<char>>,
    req: JsonRpcRequest,
    canonical: Option<Seq<char>>,
    absolute: bool,
    i: int,
)
    requires
        is_tool_call(req.method@),
        is_file_tool(tool_name(req.params)),
        0 <= i < file_patterns.len(),
        regex_is_match(file_patterns[i], path_text(tool_arguments(req.params))),
    ensures
        decision(command_patterns, file_patterns, req, canonical, absolute) is Some,
{
    lemma_first_match_none(file_patterns, path_text(tool_arguments(req.params)));
}

/// Writing-tool names are file-tool names too.
pub proof fn lemma_write_tools_are_file_tools(name: Seq<char>)
    ensures
        is_write_tool(name) ==> is_file_tool(name),
{
}

/// A writing tool call whose contents match a blocked-command rule is blocked.
pub proof fn law_malicious_contents_blocked(
    command_patterns: Seq<Seq<char>>,
    file_patterns: Seq<Seq<char>>,
    req: JsonRpcRequest,
    canonical: Option<Seq<char>>,
    absolute: bool,
    i: int,
)
    requires
        is_tool_call(req.method@),
        is_write_tool(tool_name(req.params)),
        0 <= i < command_patterns.len(),
        regex_is_match(command_patterns[i], content_text(tool_arguments(req.params))),
    ensures
        decision(command_patterns, file_patterns, req, canonical, absolute) is Some,
{
    lemma_first_match_none(command_patterns, content_text(tool_arguments(req.params)));
}

/// A tool call passes only if none of the checks that apply to it fires: no
/// blocked-command rule matches its command line (for a command tool), its
/// path leads nowhere sensitive and no sensitive-file rule matches it (for a
/// file tool), and no blocked-command rule matches what it writes (for a
/// writing tool).
pub proof fn law_allowed_calls_are_clean(
    command_patterns: Seq<Seq<char>>,
    file_patterns: Seq<Seq<char>>,
    req: JsonRpcRequest,
    canonical: Option<Seq<char>>,
    absolute: bool,
)
    requires
        is_tool_call(req.method@),
        decision(command_patterns, file_patterns, req, canonical, absolute) is None,
    ensures
        ({
            let name = tool_name(req.params);
            let args = tool_arguments(req.params);
            &&& is_command_tool(name) ==> forall|i: int| 0 <= i < command_patterns.len()
                ==> !regex_is_match(#[trigger] command_patterns[i], command_text(args))
            &&& is_file_tool(name) ==> path_verdict(path_text(args), canonical, absolute) is None
            &&& is_file_tool(name) ==> forall|i: int| 0 <= i < file_patterns.len()
                ==> !regex_is_match(#[trigger] file_patterns[i], path_text(args))
            &&& is_write_tool(name) ==> forall|i: int| 0 <= i < command_patterns.len()
                ==> !regex_is_match(#[trigger] command_patterns[i], content_text(args))
        }),
{
    let name = tool_name(req.params);
    let args = tool_arguments(req.params);
    lemma_first_match_none(command_patterns, command_text(args));
    lemma_first_match_none(file_patterns, path_text(args));
    lemma_first_match_none(command_patterns, content_text(args));
}

/// Every block gives one of five reasons: a blocked-command rule matched the
/// command line, the resolved path leads into a sensitive directory, the
/// absolute path names a sensitive system directory, a sensitive-file rule
/// matched the path, or a blocked-command rule matched the written contents.
pub proof fn law_block_reasons(
    command_patterns: Seq<Seq<char>>,
    file_patterns: Seq<Seq<char>>,
    req: JsonRpcRequest,
    canonical: Option<Seq<char>>,
    absolute: bool,
)
    requires
        decision(command_patterns, file_patterns, req, canonical, absolute) is Some,
    ensures
        ({
            let reason = decision(command_patterns, file_patterns, req, canonical, absolute)->0;
            let args = tool_arguments(req.params);
            ||| exists|j: int| 0 <= j < command_patterns.len()
                && reason == "Dangerous execution pattern matched rule: "@ + #[trigger] command_patterns[j]
                && regex_is_match(command_patterns[j], command_text(args))
            ||| exists|c: Seq<char>| canonical == Some(c)
                && reason == "Resolved canonical path accesses sensitive directory: "@ + c
            ||| canonical is None && absolute
                && reason == "Absolute path targets sensitive system directory: "@ + path_text(args)
            ||| canonical is None && is_home_path(path_text(args)) && names_sensitive_directory(path_text(args))
                && reason == "Home path targets sensitive system directory: "@ + path_text(args)
            ||| exists|j: int| 0 <= j < file_patterns.len()
                && reason == "Attempt to access sensitive file matching rule: "@ + #[trigger] file_patterns[j]
                && regex_is_match(file_patterns[j], path_text(args))
            ||| exists|j: int| 0 <= j < command_patterns.len()
                && reason == "File content contains blocked execution signature: "@ + #[trigger] command_patterns[j]
                && regex_is_match(command_patterns[j], content_text(args))
        }),
{
    let args = tool_arguments(req.params);
    let name = tool_name(req.params);
    if command_verdict(command_patterns, name, args) is Some {
        lemma_first_match_some(command_patterns, command_text(args));
    } else if path_verdict(path_text(args), canonical, absolute) is Some {
    } else if rule_block(file_patterns, path_text(args), "Attempt to access sensitive file matching rule: "@) is Some {
        lemma_first_match_some(file_patterns, path_text(args));
    } else {
        lemma_first_match_some(command_patterns, content_text(args));
    }
}

/// Where the filter names no path to resolve, the decision does not depend on
/// what the file system says of any path.
pub proof fn law_resolution_needed_only_for_named_path(
    command_patterns: Seq<Seq<char>>,
    file_patterns: Seq<Seq<char>>,
    req: JsonRpcRequest,
    canonical1: Option<Seq<char>>,
    absolute1: bool,
    canonical2: Option<Seq<char>>,
    absolute2: bool,
)
    requires
        path_needed(command_patterns, req) is None,
    ensures
        decision(command_patterns, file_patterns, req, canonical1, absolute1)
            == decision(command_patterns, file_patterns, req, canonical2, absolute2),
{
}

/// A file tool call is blocked when its path leads to a sensitive location:
/// when the path resolves to a place under `.ssh`, `.aws`, `AppData` or a
/// `.git/config`; or, when it does not resolve, when it is absolute and names
/// `.ssh`, `.aws`, `AppData` or `.git`, or starts at the home directory (`~`)
/// and names `.ssh`, `.aws`, `AppData` or `.git/config`.
pub proof fn law_sensitive_locations_blocked(
    command_patterns: Seq<Seq<char>>,
    file_patterns: Seq<Seq<char>>,
    req: JsonRpcRequest,
    canonical: Option<Seq<char>>,
    absolute: bool,
)
    requires
        is_tool_call(req.method@),
        is_file_tool(tool_name(req.params)),
        ({
            let path = path_text(tool_arguments(req.params));
            ||| canonical matches Some(c) && names_sensitive_directory(c)
            ||| canonical is None && absolute && names_sensitive_system_directory(path)
            ||| canonical is None && is_home_path(path) && names_sensitive_directory(path)
        }),
    ensures
        decision(command_patterns, file_patterns, req, canonical, absolute) is Some,
{
}

/// `v` is the JSON string `s`.
pub open spec fn is_json_text(v: JsonValue, s: Seq<char>) -> bool {
    v matches JsonValue::Str(x) && x@ == s
}

/// A tool name that marks a command tool: it contains `command`, `execute`,
/// `bash` or `run`.
pub open spec fn names_command(name: Seq<char>) -> bool {
    has_substring(name, "command"@) || has_substring(name, "execute"@) || has_substring(name, "bash"@)
        || has_substring(name, "run"@)
}

/// An `args` item read as text: a string is its text, any other value is empty.
pub open spec fn item_is_text(v: JsonValue, t: Seq<char>) -> bool {
    is_json_text(v, t) || (!(v is Str) && t == Seq::<char>::empty())
}

proof fn lemma_strings_text(v: Seq<JsonValue>, items: Seq<Seq<char>>)
    requires
        v.len() == items.len(),
        forall|k: int| 0 <= k < v.len() ==> item_is_text(#[trigger] v[k], items[k]),
    ensures
        v.map_values(|x: JsonValue| item_text(x)) == items,
{
    assert(v.map_values(|x: JsonValue| item_text(x)) =~= items);
}

/// The command line of a command tool call is its `command` string (else its
/// `cmd` string), a space, and its `args` items separated by single spaces
/// (an item that is not a string counts as empty text); the first
/// blocked-command rule that matches that line decides the block.
pub proof fn law_command_line_is_command_space_args(
    command_patterns: Seq<Seq<char>>,
    file_patterns: Seq<Seq<char>>,
    req: JsonRpcRequest,
    canonical: Option<Seq<char>>,
    absolute: bool,
    name: Seq<char>,
    args: JsonValue,
    command: Seq<char>,
    arg_values: Vec<JsonValue>,
    arg_texts: Seq<Seq<char>>,
    i: int,
)
    requires
        req.method@ == "tools/call"@ || req.method@ == "callTool"@,
        is_json_text(req.params.get_spec("name"@)->0, name) && req.params.get_spec("name"@) is Some,
        names_command(name),
        req.params.get_spec("arguments"@) == Some(args),
        text_at(args, "command"@) == Some(command)
            || (text_at(args, "command"@) is None && text_at(args, "cmd"@) == Some(command)),
        args.get_spec("args"@) == Some(JsonValue::Array(arg_values)),
        arg_values@.len() == arg_texts.len(),
        forall|k: int| 0 <= k < arg_values@.len() ==> item_is_text(#[trigger] arg_values@[k], arg_texts[k]),
        0 <= i < command_patterns.len(),
        regex_is_match(command_patterns[i], command + " "@ + join(arg_texts, " "@)),
        forall|k: int| 0 <= k < i ==> !regex_is_match(#[trigger] command_patterns[k], command + " "@ + join(arg_texts, " "@)),
    ensures
        decision(command_patterns, file_patterns, req, canonical, absolute)
            == Some("Dangerous execution pattern matched rule: "@ + command_patterns[i]),
{
    lemma_strings_text(arg_values@, arg_texts);
    assert(tool_name(req.params) == name);
    assert(tool_arguments(req.params) == args);
    assert(str_member(args, "command"@) == text_at(args, "command"@));
    assert(str_member(args, "cmd"@) == text_at(args, "cmd"@));
    let cands = seq![str_member(args, "command"@), str_member(args, "cmd"@)];
    assert(cands.drop_first() =~= seq![str_member(args, "cmd"@)]);
    reveal_with_fuel(first_text, 3);
    assert(first_text(cands) == command);
    assert(args_text(args) == join(arg_texts, " "@));
    let text = command + " "@ + join(arg_texts, " "@);
    assert(command_text(args) == text);
    lemma_first_match_is(command_patterns, text, i);
}

/// A command tool call without an `args` array is checked on its command
/// string followed by one space.
pub proof fn law_command_line_without_args(
    command_patterns: Seq<Seq<char>>,
    file_patterns: Seq<Seq<char>>,
    req: JsonRpcRequest,
    canonical: Option<Seq<char>>,
    absolute: bool,
    name: Seq<char>,
    args: JsonValue,
    command: Seq<char>,
    i: int,
)
    requires
        req.method@ == "tools/call"@ || req.method@ == "callTool"@,
        req.params.get_spec("name"@) matches Some(n) && is_json_text(n, name),
        names_command(name),
        req.params.get_spec("arguments"@) == Some(args),
        text_at(args, "command"@) == Some(command)
            || (text_at(args, "command"@) is None && text_at(args, "cmd"@) == Some(command)),
        !(args.get_spec("args"@) matches Some(JsonValue::Array(_))),
        0 <= i < command_patterns.len(),
        regex_is_match(command_patterns[i], command + " "@),
        forall|k: int| 0 <= k < i ==> !regex_is_match(#[trigger] command_patterns[k], command + " "@),
    ensures
        decision(command_patterns, file_patterns, req, canonical, absolute)
            == Some("Dangerous execution pattern matched rule: "@ + command_patterns[i]),
{
    assert(str_member(req.params, "name"@) == Some(name));
    assert(tool_name(req.params) == name);
    assert(str_member(args, "command"@) == text_at(args, "command"@));
    assert(str_member(args, "cmd"@) == text_at(args, "cmd"@));
    let cands = seq![str_member(args, "command"@), str_member(args, "cmd"@)];
    assert(cands.drop_first() =~= seq![str_member(args, "cmd"@)]);
    reveal_with_fuel(first_text, 3);
    assert(args_text(args) == Seq::<char>::empty());
    assert(command + " "@ + Seq::<char>::empty() =~= command + " "@);
    lemma_first_match_is(command_patterns, command + " "@, i);
}

/// The first match is the pattern at `i` when it matches and none before does.
pub proof fn lemma_first_match_is(patterns: Seq<Seq<char>>, text: Seq<char>, i: int)
    requires
        0 <= i < patterns.len(),
        regex_is_match(patterns[i], text),
        forall|k: int| 0 <= k < i ==> !regex_is_match(#[trigger] patterns[k], text),
    ensures
        first_match(patterns, text) == Some(patterns[i]),
    decreases i,
{
    if i > 0 {
        let rest = patterns.drop_first();
        assert(!regex_is_match(patterns[0], text));
        assert forall|k: int| 0 <= k < i - 1 implies !regex_is_match(#[trigger] rest[k], text) by {
            assert(rest[k] == patterns[k + 1]);
        }
        assert(rest[i - 1] == patterns[i]);
        lemma_first_match_is(rest, text, i - 1);
    }
}

/// A tool name that marks a file tool: it contains `file`, `read`, `write`,
/// `patch` or `edit`.
pub open spec fn names_file(name: Seq<char>) -> bool {
    has_substring(name, "file"@) || has_substring(name, "read"@) || has_substring(name, "write"@)
        || has_substring(name, "patch"@) || has_substring(name, "edit"@)
}

/// A tool name that marks a writing tool: it contains `write`, `patch` or `edit`.
pub open spec fn names_write(name: Seq<char>) -> bool {
    has_substring(name, "write"@) || has_substring(name, "patch"@) || has_substring(name, "edit"@)
}

/// The text of the member `key` of `v`, if that member is a JSON string.
pub open spec fn text_at(v: JsonValue, key: Seq<char>) -> Option<Seq<char>> {
    match v.get_spec(key) {
        Some(JsonValue::Str(s)) => Some(s@),
        _ => None,
    }
}

/// A tool call to a file tool (that is not a command tool) with arguments
/// `args`, whose `path` member (else its `filename` member) is the string `path`.
pub open spec fn file_tool_call(req: JsonRpcRequest, name: Seq<char>, args: JsonValue, path: Seq<char>) -> bool {
    &&& req.method@ == "tools/call"@ || req.method@ == "callTool"@
    &&& req.params.get_spec("name"@) matches Some(n) && is_json_text(n, name)
    &&& names_file(name)
    &&& !names_command(name)
    &&& req.params.get_spec("arguments"@) == Some(args)
    &&& text_at(args, "path"@) == Some(path)
        || (text_at(args, "path"@) is None && text_at(args, "filename"@) == Some(path))
}

proof fn lemma_file_tool_call(
    command_patterns: Seq<Seq<char>>,
    req: JsonRpcRequest,
    name: Seq<char>,
    args: JsonValue,
    path: Seq<char>,
)
    requires
        file_tool_call(req, name, args, path),
    ensures
        is_tool_call(req.method@),
        tool_name(req.params) == name,
        tool_arguments(req.params) == args,
        command_verdict(command_patterns, name, args) is None,
        is_file_tool(name),
        path_text(args) == path,
{
    assert(str_member(req.params, "name"@) == Some(name));
    assert(str_member(args, "path"@) == text_at(args, "path"@));
    assert(str_member(args, "filename"@) == text_at(args, "filename"@));
    let cands = seq![str_member(args, "path"@), str_member(args, "filename"@)];
    assert(cands.drop_first() =~= seq![str_member(args, "filename"@)]);
    reveal_with_fuel(first_text, 3);
}

/// Where a file tool's path has no canonical form on disk, an absolute path
/// that contains `.ssh`, `.aws`, `AppData` or `.git` is blocked, and the reason
/// gives the path.
pub proof fn law_absolute_sensitive_path_blocked(
    command_patterns: Seq<Seq<char>>,
    file_patterns: Seq<Seq<char>>,
    req: JsonRpcRequest,
    name: Seq<char>,
    args: JsonValue,
    path: Seq<char>,
)
    requires
        file_tool_call(req, name, args, path),
        has_substring(path, ".ssh"@) || has_substring(path, ".aws"@) || has_substring(path, "AppData"@)
            || has_substring(path, ".git"@),
    ensures
        decision(command_patterns, file_patterns, req, None, true)
            == Some("Absolute path targets sensitive system directory: "@ + path),
{
    lemma_file_tool_call(command_patterns, req, name, args, path);
}

/// A file tool's path that resolves on disk into `.ssh`, `.aws`, `AppData`
/// or a `.git/config` is blocked, and the reason gives the resolved path.
pub proof fn law_resolved_sensitive_path_blocked(
    command_patterns: Seq<Seq<char>>,
    file_patterns: Seq<Seq<char>>,
    req: JsonRpcRequest,
    name: Seq<char>,
    args: JsonValue,
    path: Seq<char>,
    canonical: Seq<char>,
    absolute: bool,
)
    requires
        file_tool_call(req, name, args, path),
        has_substring(canonical, ".ssh"@) || has_substring(canonical, ".aws"@)
            || has_substring(canonical, "AppData"@) || has_substring(canonical, ".git/config"@),
    ensures
        decision(command_patterns, file_patterns, req, Some(canonical), absolute)
            == Some("Resolved canonical path accesses sensitive directory: "@ + canonical),
{
    lemma_file_tool_call(command_patterns, req, name, args, path);
}

/// A file tool's path written from the home directory (`~...`) that has no
/// canonical form on disk and contains `.ssh`, `.aws`, `AppData` or
/// `.git/config` is blocked, and the reason gives the path.
pub proof fn law_home_sensitive_path_blocked(
    command_patterns: Seq<Seq<char>>,
    file_patterns: Seq<Seq<char>>,
    req: JsonRpcRequest,
    name: Seq<char>,
    args: JsonValue,
    path: Seq<char>,
)
    requires
        file_tool_call(req, name, args, path),
        path.len() > 0 && path[0] == '~',
        has_substring(path, ".ssh"@) || has_substring(path, ".aws"@) || has_substring(path, "AppData"@)
            || has_substring(path, ".git/config"@),
    ensures
        decision(command_patterns, file_patterns, req, None, false)
            == Some("Home path targets sensitive system directory: "@ + path),
{
    lemma_file_tool_call(command_patterns, req, name, args, path);
}

/// A file tool's path that has no canonical form on disk, is not absolute and
/// does not start at the home directory is held against the sensitive-file
/// rules; the first rule that matches it decides the block.
pub proof fn law_sensitive_file_rule_decides(
    command_patterns: Seq<Seq<char>>,
    file_patterns: Seq<Seq<char>>,
    req: JsonRpcRequest,
    name: Seq<char>,
    args: JsonValue,
    path: Seq<char>,
    j: int,
)
    requires
        file_tool_call(req, name, args, path),
        !(path.len() > 0 && path[0] == '~'),
        0 <= j < file_patterns.len(),
        regex_is_match(file_patterns[j], path),
        forall|k: int| 0 <= k < j ==> !regex_is_match(#[trigger] file_patterns[k], path),
    ensures
        decision(command_patterns, file_patterns, req, None, false)
            == Some("Attempt to access sensitive file matching rule: "@ + file_patterns[j]),
{
    lemma_file_tool_call(command_patterns, req, name, args, path);
    lemma_first_match_is(file_patterns, path, j);
}

/// What a writing tool writes: its `content` string, else its `contents`
/// string, else its `text` string.
pub open spec fn writes_text(args: JsonValue, written: Seq<char>) -> bool {
    ||| text_at(args, "content"@) == Some(written)
    ||| text_at(args, "content"@) is None && text_at(args, "contents"@) == Some(written)
    ||| text_at(args, "content"@) is None && text_at(args, "contents"@) is None && text_at(args, "text"@) == Some(written)
}

/// What a writing tool writes (its `content`, else `contents`, else `text`
/// string) is held against the blocked-command rules once its path passed;
/// the first rule that matches it decides the block.
pub proof fn law_written_text_rule_decides(
    command_patterns: Seq<Seq<char>>,
    file_patterns: Seq<Seq<char>>,
    req: JsonRpcRequest,
    name: Seq<char>,
    args: JsonValue,
    path: Seq<char>,
    written: Seq<char>,
    i: int,
)
    requires
        file_tool_call(req, name, args, path),
        names_write(name),
        !(path.len() > 0 && path[0] == '~'),
        forall|k: int| 0 <= k < file_patterns.len() ==> !regex_is_match(#[trigger] file_patterns[k], path),
        writes_text(args, written),
        0 <= i < command_patterns.len(),
        regex_is_match(command_patterns[i], written),
        forall|k: int| 0 <= k < i ==> !regex_is_match(#[trigger] command_patterns[k], written),
    ensures
        decision(command_patterns, file_patterns, req, None, false)
            == Some("File content contains blocked execution signature: "@ + command_patterns[i]),
{
    lemma_file_tool_call(command_patterns, req, name, args, path);
    lemma_first_match_none(file_patterns, path);
    lemma_first_match_is(command_patterns, written, i);
    assert(str_member(args, "content"@) == text_at(args, "content"@));
    assert(str_member(args, "contents"@) == text_at(args, "contents"@));
    assert(str_member(args, "text"@) == text_at(args, "text"@));
    let cands = seq![str_member(args, "content"@), str_member(args, "contents"@), str_member(args, "text"@)];
    assert(cands.drop_first() =~= seq![str_member(args, "contents"@), str_member(args, "text"@)]);
    assert(cands.drop_first().drop_first() =~= seq![str_member(args, "text"@)]);
    reveal_with_fuel(first_text, 4);
    assert(content_text(args) == written);
}

} // verus!
