//! A minimal example service: echo, list processing and a tool that fails on request.

use vstd::prelude::*;
use crate::text::{concat, concat3, decimal, decimal_text};

verus! {

/// Server status information.
#[derive(Debug, Clone)]
pub struct ServerStatus {
    pub name: String,
    pub version: String,
    pub uptime_seconds: u64,
    pub tools_count: usize,
    pub resources_count: usize,
}

/// Server configuration.
#[derive(Debug, Clone)]
pub struct ServerConfig {
    pub max_concurrent_requests: usize,
    pub timeout_seconds: u64,
    pub debug_mode: bool,
    pub supported_formats: Vec<String>,
}

/// The example service. Its start time is kept by the host, which passes
/// the uptime in.
#[derive(Debug, Clone)]
pub struct TemplateMcpServer {}

/// The texts of `items` joined by ", ".
pub open spec fn joined(items: Seq<String>) -> Seq<char>
    decreases items.len(),
{
    if items.len() == 0 {
        Seq::empty()
    } else if items.len() == 1 {
        items[0]@
    } else {
        joined(items.drop_last()) + ", "@ + items.last()@
    }
}

/// The items in reverse order.
pub open spec fn reversed(items: Seq<String>) -> Seq<String> {
    Seq::new(items.len(), |i: int| items[items.len() - 1 - i])
}

/// What a list operation gives.
pub open spec fn list_operation(items: Seq<String>, operation: Seq<char>) -> Result<Seq<char>, Seq<char>> {
    if operation == "count"@ {
        Ok("List contains "@ + decimal(items.len()) + " items"@)
    } else if operation == "join"@ {
        Ok(joined(items))
    } else if operation == "reverse"@ {
        Ok(joined(reversed(items)))
    } else {
        Err("Unknown operation: "@ + operation + ". Supported: count, join, reverse"@)
    }
}

/// The texts that a result holds.
pub open spec fn text_result(r: Result<String, String>) -> Result<Seq<char>, Seq<char>> {
    match r {
        Ok(s) => Ok(s@),
        Err(e) => Err(e@),
    }
}

fn join_items(items: &Vec<String>) -> (r: String)
    ensures
        r@ == joined(items@),
{
    let mut r = String::new();
    let mut i: usize = 0;
    while i < items.len()
        invariant
            i <= items@.len(),
            r@ == joined(items@.subrange(0, i as int)),
        decreases items@.len() - i,
    {
        assert(items@.subrange(0, i + 1).drop_last() == items@.subrange(0, i as int));
        if i == 0 {
            r = items[i].clone();
        } else {
            r = concat3(r.as_str(), ", ", items[i].as_str());
        }
        i = i + 1;
    }
    assert(items@.subrange(0, items@.len() as int) == items@);
    r
}

fn reverse_items(items: Vec<String>) -> (r: Vec<String>)
    ensures
        r@ == reversed(items@),
{
    let ghost all = items@;
    let mut rest = items;
    let mut r: Vec<String> = Vec::new();
    while rest.len() > 0
        invariant
            rest@.len() + r@.len() == all.len(),
            rest@ == all.subrange(0, rest@.len() as int),
            forall|i: int| 0 <= i < r@.len() ==> #[trigger] r@[i] == all[all.len() - 1 - i],
        decreases rest@.len(),
    {
        let x = rest.pop().unwrap();
        r.push(x);
    }
    assert(r@ == reversed(all));
    r
}

impl TemplateMcpServer {
    /// A line saying that the service runs, with its uptime.
    pub fn get_status(&self, uptime_seconds: u64) -> (r: String)
        ensures
            r@ == "Template MCP Server is running and ready to serve requests. Uptime: "@
                + decimal(uptime_seconds as nat) + "s"@,
    {
        let n = decimal_text(uptime_seconds);
        concat3(
            "Template MCP Server is running and ready to serve requests. Uptime: ",
            n.as_str(),
            "s",
        )
    }

    /// The message after the prefix and ": ", or after "Echo: " without one.
    pub fn echo(&self, message: String, prefix: Option<String>) -> (r: String)
        ensures
            r@ == (match prefix {
                Some(p) => p@ + ": "@ + message@,
                None => "Echo: "@ + message@,
            }),
    {
        match prefix {
            Some(p) => concat3(p.as_str(), ": ", message.as_str()),
            None => concat("Echo: ", message.as_str()),
        }
    }

    /// Counts, joins or reverses `items`; other operations are refused.
    pub fn process_list(&self, items: Vec<String>, operation: String) -> (r: Result<String, String>)
        ensures
            text_result(r) == list_operation(items@, operation@),
    {
        if operation.eq(&String::from_str("count")) {
            let n = decimal_text(items.len() as u64);
            Ok(concat3("List contains ", n.as_str(), " items"))
        } else if operation.eq(&String::from_str("join")) {
            Ok(join_items(&items))
        } else if operation.eq(&String::from_str("reverse")) {
            let reversed = reverse_items(items);
            Ok(join_items(&reversed))
        } else {
            Err(concat3("Unknown operation: ", operation.as_str(), ". Supported: count, join, reverse"))
        }
    }

    /// Fails when asked to, else reports success.
    pub fn example_with_error(&self, should_fail: bool) -> (r: Result<String, String>)
        ensures
            text_result(r) == if should_fail {
                Err::<Seq<char>, Seq<char>>("This tool was asked to fail"@)
            } else {
                Ok::<Seq<char>, Seq<char>>("Tool executed successfully"@)
            },
    {
        if should_fail {
            Err(String::from_str("This tool was asked to fail"))
        } else {
            Ok(String::from_str("Tool executed successfully"))
        }
    }

    /// A helper that is not exposed as a tool.
    pub fn internal_helper(&self) -> (r: String)
        ensures
            r@ == "This method is not exposed as an MCP tool"@,
    {
        String::from_str("This method is not exposed as an MCP tool")
    }
}

} // verus!
