//! Which tools an agent gets from its configuration: built-in tools by name,
//! and the tools of each remote server, all of them or those enabled.

use vstd::prelude::*;
use crate::json::views;

verus! {

/// The tools that ship with the agent.
#[derive(Clone, Copy, Debug, PartialEq, Eq, Structural)]
pub enum BuiltinTool {
    Bash,
    Edit,
    MultiEdit,
    Fetch,
    Find,
    Ls,
    Read,
    TodoRead,
    TodoWrite,
    Write,
}

/// The name a configuration uses for a built-in tool.
pub open spec fn builtin_name(t: BuiltinTool) -> Seq<char> {
    match t {
        BuiltinTool::Bash => "bash"@,
        BuiltinTool::Edit => "edit"@,
        BuiltinTool::MultiEdit => "multiedit"@,
        BuiltinTool::Fetch => "fetch"@,
        BuiltinTool::Find => "find"@,
        BuiltinTool::Ls => "ls"@,
        BuiltinTool::Read => "read"@,
        BuiltinTool::TodoRead => "todo_read"@,
        BuiltinTool::TodoWrite => "todo_write"@,
        BuiltinTool::Write => "write"@,
    }
}

/// Every built-in tool, in the order `*` adds them.
pub open spec fn all_builtins() -> Seq<BuiltinTool> {
    seq![
        BuiltinTool::Bash, BuiltinTool::Edit, BuiltinTool::MultiEdit, BuiltinTool::Fetch, BuiltinTool::Find,
        BuiltinTool::Ls, BuiltinTool::Read, BuiltinTool::TodoRead, BuiltinTool::TodoWrite, BuiltinTool::Write,
    ]
}

pub open spec fn is_wildcard(names: Seq<String>) -> bool {
    exists|i: int| 0 <= i < names.len() && names[i]@ == "*"@
}

/// The built-in tool that `name` names, if any.
pub open spec fn builtin_named(name: Seq<char>) -> Option<BuiltinTool> {
    if name == "bash"@ { Some(BuiltinTool::Bash) }
    else if name == "edit"@ { Some(BuiltinTool::Edit) }
    else if name == "multiedit"@ { Some(BuiltinTool::MultiEdit) }
    else if name == "fetch"@ { Some(BuiltinTool::Fetch) }
    else if name == "find"@ { Some(BuiltinTool::Find) }
    else if name == "ls"@ { Some(BuiltinTool::Ls) }
    else if name == "read"@ { Some(BuiltinTool::Read) }
    else if name == "todo_read"@ { Some(BuiltinTool::TodoRead) }
    else if name == "todo_write"@ { Some(BuiltinTool::TodoWrite) }
    else if name == "write"@ { Some(BuiltinTool::Write) }
    else { None }
}

fn text_is(s: &String, lit: &str) -> (r: bool)
    ensures
        r == (s@ == lit@),
{
    *s == String::from_str(lit)
}

pub fn parse_builtin(name: &String) -> (r: Option<BuiltinTool>)
    ensures
        r == builtin_named(name@),
{
    if text_is(name, "bash") { Some(BuiltinTool::Bash) }
    else if text_is(name, "edit") { Some(BuiltinTool::Edit) }
    else if text_is(name, "multiedit") { Some(BuiltinTool::MultiEdit) }
    else if text_is(name, "fetch") { Some(BuiltinTool::Fetch) }
    else if text_is(name, "find") { Some(BuiltinTool::Find) }
    else if text_is(name, "ls") { Some(BuiltinTool::Ls) }
    else if text_is(name, "read") { Some(BuiltinTool::Read) }
    else if text_is(name, "todo_read") { Some(BuiltinTool::TodoRead) }
    else if text_is(name, "todo_write") { Some(BuiltinTool::TodoWrite) }
    else if text_is(name, "write") { Some(BuiltinTool::Write) }
    else { None }
}

pub fn has_wildcard(names: &Vec<String>) -> (r: bool)
    ensures
        r == is_wildcard(names@),
{
    let mut i: usize = 0;
    while i < names.len()
        invariant
            i <= names@.len(),
            forall|j: int| 0 <= j < i ==> names@[j]@ != "*"@,
        decreases names@.len() - i,
    {
        if text_is(&names[i], "*") {
            return true;
        }
        i += 1;
    }
    false
}

/// The built-in tools a configuration names: all of them when it names
/// `*`, else each name in turn; an unknown name is an error.
pub fn builtin_tools(names: &Vec<String>) -> (r: Result<Vec<BuiltinTool>, String>)
    ensures
        is_wildcard(names@) ==> (r matches Ok(v) && v@ == all_builtins()),
        !is_wildcard(names@) && (forall|i: int| 0 <= i < names@.len() ==> #[trigger] builtin_named(names@[i]@) is Some)
            ==> (r matches Ok(v) && v@.len() == names@.len()
                && forall|i: int| 0 <= i < names@.len() ==> Some(#[trigger] v@[i]) == builtin_named(names@[i]@)),
        !is_wildcard(names@) && (exists|i: int| 0 <= i < names@.len() && #[trigger] builtin_named(names@[i]@) is None)
            ==> (r matches Err(e) && exists|i: int| 0 <= i < names@.len() && builtin_named(names@[i]@) is None
                && e@ == "Unknown builtin tool: "@ + names@[i]@
                && forall|j: int| 0 <= j < i ==> #[trigger] builtin_named(names@[j]@) is Some),
{
    if has_wildcard(names) {
        let v = vec![
            BuiltinTool::Bash, BuiltinTool::Edit, BuiltinTool::MultiEdit, BuiltinTool::Fetch, BuiltinTool::Find,
            BuiltinTool::Ls, BuiltinTool::Read, BuiltinTool::TodoRead, BuiltinTool::TodoWrite, BuiltinTool::Write,
        ];
        assert(v@ =~= all_builtins());
        return Ok(v);
    }
    let mut v: Vec<BuiltinTool> = Vec::new();
    let mut i: usize = 0;
    while i < names.len()
        invariant
            !is_wildcard(names@),
            i <= names@.len(),
            v@.len() == i,
            forall|j: int| 0 <= j < i ==> Some(#[trigger] v@[j]) == builtin_named(names@[j]@),
        decreases names@.len() - i,
    {
        match parse_builtin(&names[i]) {
            Some(t) => v.push(t),
            None => {
                let mut e = String::from_str("Unknown builtin tool: ");
                e.append(names[i].as_str());
                proof {
                    assert forall|j: int| 0 <= j < i implies #[trigger] builtin_named(names@[j]@) is Some by {
                        assert(Some(v@[j]) == builtin_named(names@[j]@));
                    }
                }
                return Err(e);
            }
        }
        i += 1;
    }
    proof {
        assert forall|j: int| 0 <= j < names@.len() implies #[trigger] builtin_named(names@[j]@) is Some by {
            assert(Some(v@[j]) == builtin_named(names@[j]@));
        }
    }
    Ok(v)
}

pub open spec fn listed(names: Seq<String>, n: Seq<char>) -> bool {
    exists|i: int| 0 <= i < names.len() && names[i]@ == n
}

fn contains_name(names: &Vec<String>, n: &String) -> (r: bool)
    ensures
        r == listed(names@, n@),
{
    let mut i: usize = 0;
    while i < names.len()
        invariant
            i <= names@.len(),
            forall|j: int| 0 <= j < i ==> names@[j]@ != n@,
        decreases names@.len() - i,
    {
        if names[i] == *n {
            assert(names@[i as int]@ == n@);
            return true;
        }
        i += 1;
    }
    false
}

/// Every enabled tool is offered, and `v` indexes exactly the offered tools
/// that are enabled, in the server's order, each once.
pub open spec fn selects_enabled(offered: Seq<String>, enabled: Seq<String>, v: Seq<usize>) -> bool {
    &&& forall|i: int| 0 <= i < enabled.len() ==> listed(offered, #[trigger] enabled[i]@)
    &&& forall|i: int| 0 <= i < v.len() ==> #[trigger] v[i] < offered.len() && listed(enabled, offered[v[i] as int]@)
    &&& forall|m: int| 0 <= m < offered.len() && listed(enabled, offered[m]@)
        ==> exists|i: int| 0 <= i < v.len() && #[trigger] v[i] == m
    &&& forall|a: int, b: int| 0 <= a < b < v.len() ==> #[trigger] v[a] < #[trigger] v[b]
}

/// The tools to take from a remote server that offers `offered`: all of
/// them when `enabled` holds `*`; else the indices of those enabled, in the
/// server's order, and an error naming the first enabled tool the server
/// does not offer.
pub fn select_mcp_tools(offered: &Vec<String>, enabled: &Vec<String>, mcp_name: &str) -> (r: Result<Vec<usize>, String>)
    ensures
        is_wildcard(enabled@) ==> (r matches Ok(v) && v@.len() == offered@.len()
            && forall|i: int| 0 <= i < v@.len() ==> #[trigger] v@[i] == i),
        !is_wildcard(enabled@) ==> match r {
            Ok(v) => selects_enabled(offered@, enabled@, v@),
            Err(e) => exists|i: int| 0 <= i < enabled@.len() && !listed(offered@, #[trigger] enabled@[i]@)
                && e@ == "Tool '"@ + enabled@[i]@ + "' not found in MCP client '"@ + mcp_name@ + "'"@,
        },
{
    let mut v: Vec<usize> = Vec::new();
    if has_wildcard(enabled) {
        let mut i: usize = 0;
        while i < offered.len()
            invariant
                i <= offered@.len(),
                v@.len() == i,
                forall|j: int| 0 <= j < i ==> #[trigger] v@[j] == j,
            decreases offered@.len() - i,
        {
            v.push(i);
            i += 1;
        }
        return Ok(v);
    }
    let mut k: usize = 0;
    while k < offered.len()
        invariant
            !is_wildcard(enabled@),
            k <= offered@.len(),
            forall|i: int| 0 <= i < v@.len() ==> #[trigger] v@[i] < k && listed(enabled@, offered@[v@[i] as int]@),
            forall|m: int| 0 <= m < k && listed(enabled@, offered@[m]@) ==> exists|i: int| 0 <= i < v@.len() && #[trigger] v@[i] == m,
            forall|a: int, b: int| 0 <= a < b < v@.len() ==> #[trigger] v@[a] < #[trigger] v@[b],
        decreases offered@.len() - k,
    {
        if contains_name(enabled, &offered[k]) {
            let ghost before = v@;
            v.push(k);
            proof {
                assert forall|m: int| 0 <= m < k + 1 && listed(enabled@, offered@[m]@) implies exists|i: int| 0 <= i < v@.len() && #[trigger] v@[i] == m by {
                    if m == k {
                        assert(v@[before.len() as int] == m);
                    } else {
                        let i = choose|i: int| 0 <= i < before.len() && #[trigger] before[i] == m;
                        assert(v@[i] == m);
                    }
                }
            }
        }
        k += 1;
    }
    let mut i: usize = 0;
    while i < enabled.len()
        invariant
            !is_wildcard(enabled@),
            i <= enabled@.len(),
            forall|j: int| 0 <= j < i ==> listed(offered@, #[trigger] enabled@[j]@),
            forall|i: int| 0 <= i < v@.len() ==> #[trigger] v@[i] < offered@.len() && listed(enabled@, offered@[v@[i] as int]@),
            forall|m: int| 0 <= m < offered@.len() && listed(enabled@, offered@[m]@) ==> exists|i: int| 0 <= i < v@.len() && #[trigger] v@[i] == m,
            forall|a: int, b: int| 0 <= a < b < v@.len() ==> #[trigger] v@[a] < #[trigger] v@[b],
        decreases enabled@.len() - i,
    {
        if !contains_name(offered, &enabled[i]) {
            let mut e = String::from_str("Tool '");
            e.append(enabled[i].as_str());
            e.append("' not found in MCP client '");
            e.append(mcp_name);
            e.append("'");
            return Err(e);
        }
        i += 1;
    }
    assert(selects_enabled(offered@, enabled@, v@));
    Ok(v)
}

/// The tool names that the servers which answered contribute, in order.
pub open spec fn gathered(servers: Seq<Result<Vec<String>, String>>) -> Seq<Seq<char>>
    decreases servers.len(),
{
    if servers.len() == 0 {
        Seq::empty()
    } else {
        match servers.last() {
            Ok(names) => gathered(servers.drop_last()) + views(names@),
            Err(_) => gathered(servers.drop_last()),
        }
    }
}

/// The errors of the servers which failed, in order.
pub open spec fn failures_of(servers: Seq<Result<Vec<String>, String>>) -> Seq<Seq<char>>
    decreases servers.len(),
{
    if servers.len() == 0 {
        Seq::empty()
    } else {
        match servers.last() {
            Ok(_) => failures_of(servers.drop_last()),
            Err(e) => failures_of(servers.drop_last()).push(e@),
        }
    }
}

fn append_texts(out: &mut Vec<String>, names: &Vec<String>)
    ensures
        views(final(out)@) == views(old(out)@) + views(names@),
{
    let ghost start = views(out@);
    let mut i: usize = 0;
    assert(views(names@).subrange(0, 0) =~= Seq::<Seq<char>>::empty());
    assert(start + Seq::<Seq<char>>::empty() =~= start);
    while i < names.len()
        invariant
            i <= names@.len(),
            out@.len() == start.len() + i,
            views(out@) == start + views(names@).subrange(0, i as int),
        decreases names@.len() - i,
    {
        let ghost before = out@;
        out.push(names[i].clone());
        proof {
            let target = start + views(names@).subrange(0, i + 1);
            assert forall|j: int| 0 <= j < out@.len() implies views(out@)[j] == target[j] by {
                if j < before.len() {
                    assert(out@[j] == before[j]);
                    assert(views(before)[j] == (start + views(names@).subrange(0, i as int))[j]);
                } else {
                    assert(out@[j] == names@[i as int]);
                }
            }
            assert(views(out@) =~= target);
        }
        i += 1;
    }
    proof {
        assert(views(names@).subrange(0, names@.len() as int) =~= views(names@));
    }
}

/// The tools of an agent from its built-in tools and each server's outcome:
/// a server that failed contributes nothing and its error is kept. The
/// failures are fatal only when no tool remains at all.
pub fn gather_tools(builtin: &Vec<String>, servers: &Vec<Result<Vec<String>, String>>) -> (r: Result<(Vec<String>, Vec<String>), String>)
    ensures
        views(builtin@).len() + gathered(servers@).len() == 0 && failures_of(servers@).len() > 0
            ==> (r matches Err(e) && e@ == "No tools available: "@ + failures_of(servers@)[0]),
        !(views(builtin@).len() + gathered(servers@).len() == 0 && failures_of(servers@).len() > 0)
            ==> (r matches Ok((tools, failures)) && views(tools@) == views(builtin@) + gathered(servers@)
                && views(failures@) == failures_of(servers@)),
{
    let mut tools: Vec<String> = Vec::new();
    append_texts(&mut tools, builtin);
    proof {
        assert(views(tools@) =~= views(builtin@));
    }
    let mut failures: Vec<String> = Vec::new();
    let mut k: usize = 0;
    while k < servers.len()
        invariant
            k <= servers@.len(),
            views(tools@) == views(builtin@) + gathered(servers@.subrange(0, k as int)),
            views(failures@) == failures_of(servers@.subrange(0, k as int)),
        decreases servers@.len() - k,
    {
        proof {
            let pre = servers@.subrange(0, k + 1);
            assert(pre.drop_last() =~= servers@.subrange(0, k as int));
            assert(pre.last() == servers@[k as int]);
        }
        match &servers[k] {
            Ok(names) => {
                append_texts(&mut tools, names);
                proof {
                    assert(views(tools@) =~= views(builtin@) + gathered(servers@.subrange(0, k + 1)));
                }
            }
            Err(e) => {
                let ghost before = failures@;
                failures.push(e.clone());
                proof {
                    assert forall|j: int| 0 <= j < before.len() implies views(failures@)[j] == views(before)[j] by {
                        assert(failures@[j] == before[j]);
                    }
                    assert(views(failures@) =~= failures_of(servers@.subrange(0, k as int)).push(e@));
                }
            }
        }
        k += 1;
    }
    proof {
        assert(servers@.subrange(0, servers@.len() as int) =~= servers@);
    }
    if tools.len() == 0 && failures.len() > 0 {
        let mut msg = String::from_str("No tools available: ");
        msg.append(failures[0].as_str());
        return Err(msg);
    }
    Ok((tools, failures))
}

} // verus!
