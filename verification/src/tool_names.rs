//! The names of the tools of a tool registry: each a valid name, each
//! registered once, looked up by name when a call arrives.
use vstd::prelude::*;
use crate::json::{Json, escape_json, json_text, members_text, push_json_string};
use crate::structured::{SchemaError, StructuredError, ToolExecutionError, valid_name, validate_name};
use crate::text::{chars_eq, concat_str};

verus! {

/// Whether no name occurs twice.
pub open spec fn distinct_names(s: Seq<Seq<char>>) -> bool {
    forall|i: int, j: int| 0 <= i < j < s.len() ==> #[trigger] s[i] != #[trigger] s[j]
}

/// The registered tool names, in registration order, each once.
#[derive(Debug)]
pub struct ToolNames {
    names: Vec<String>,
}

impl View for ToolNames {
    type V = Seq<Seq<char>>;

    closed spec fn view(&self) -> Seq<Seq<char>> {
        self.names@.map_values(|s: String| s@)
    }
}

/// The error of a name registered twice.
pub open spec fn duplicate_error(name: Seq<char>) -> SchemaError {
    SchemaError::InvalidName("duplicate tool registration: `"@ + name + "`"@)
}

/// The error of a call of a name that is not registered.
pub open spec fn unknown_tool_error(name: Seq<char>) -> SchemaError {
    SchemaError::InvalidName("unknown tool `"@ + name + "`"@)
}

impl ToolNames {
    #[verifier::type_invariant]
    spec fn inv(&self) -> bool {
        distinct_names(self@)
    }

    /// No tool registered.
    pub fn new() -> (r: Self)
        ensures
            r@ == Seq::<Seq<char>>::empty(),
    {
        let r = ToolNames { names: Vec::new() };
        assert(r@ =~= Seq::<Seq<char>>::empty());
        r
    }

    /// Number of registered tools.
    pub fn len(&self) -> (r: usize)
        ensures
            r == self@.len(),
    {
        self.names.len()
    }

    /// Where `name` is registered, if it is.
    pub fn position(&self, name: &str) -> (r: Option<usize>)
        ensures
            match r {
                Some(i) => i < self@.len() && self@[i as int] == name@,
                None => !self@.contains(name@),
            },
    {
        let n = self.names.len();
        let mut i: usize = 0;
        while i < n
            invariant
                n == self.names@.len(),
                n == self@.len(),
                i <= n,
                forall|j: int| 0 <= j < i ==> self@[j] != name@,
            decreases n - i,
        {
            assert(self@[i as int] == self.names@[i as int]@);
            if chars_eq(self.names[i].as_str(), name) {
                return Some(i);
            }
            i = i + 1;
        }
        None
    }

    /// Registers `name`: refused when the name is invalid or already
    /// registered, in which case nothing changes.
    pub fn register(&mut self, name: &str) -> (r: Result<(), StructuredError>)
        ensures
            !valid_name(name@) ==> (r matches Err(e) && e@ == SchemaError::InvalidName(name@)
                && final(self)@ == old(self)@),
            valid_name(name@) && old(self)@.contains(name@) ==> (r matches Err(e) && e@
                == duplicate_error(name@) && final(self)@ == old(self)@),
            valid_name(name@) && !old(self)@.contains(name@) ==> (r is Ok && final(self)@ == old(
                self,
            )@.push(name@)),
    {
        proof {
            use_type_invariant(&*self);
        }
        match validate_name(name) {
            Ok(()) => {},
            Err(e) => {
                return Err(e);
            },
        }
        if self.position(name).is_some() {
            let mut message = concat_str("duplicate tool registration: `", name);
            message.append("`");
            return Err(StructuredError::InvalidName(message));
        }
        let ghost before = self@;
        let mut names: Vec<String> = Vec::new();
        std::mem::swap(&mut names, &mut self.names);
        names.push(name.to_owned());
        proof {
            assert(names@.map_values(|s: String| s@) =~= before.push(name@));
            assert forall|i: int, j: int| 0 <= i < j < before.push(name@).len() implies #[trigger] before.push(name@)[i] != #[trigger] before.push(name@)[j] by {
                if j == before.len() {
                    assert(before[i] == before.push(name@)[i]);
                }
            }
        }
        self.names = names;
        Ok(())
    }

    /// Finds the tool a call names; an unknown name is an error.
    pub fn lookup(&self, name: &str) -> (r: Result<usize, StructuredError>)
        ensures
            self@.contains(name@) ==> (r matches Ok(i) && i < self@.len() && self@[i as int]
                == name@),
            !self@.contains(name@) ==> (r matches Err(e) && e@ == unknown_tool_error(name@)),
    {
        match self.position(name) {
            Some(i) => Ok(i),
            None => {
                let mut message = concat_str("unknown tool `", name);
                message.append("`");
                Err(StructuredError::InvalidName(message))
            },
        }
    }
}

/// The output text of one tool call: the handler's JSON output when it
/// succeeded; when it failed, the JSON object `{"error": message}` holding
/// the failure's message, so that the failure reaches the model in band.
pub open spec fn call_output_text(result: Result<Seq<char>, ToolExecutionError>) -> Seq<char> {
    match result {
        Ok(text) => text,
        Err(e) => json_text(Json::Object(seq![("error"@, Json::Str(e.spec_message()))])),
    }
}

/// Turns the outcome of one tool handler into the output sent back for the
/// call (see [`call_output_text`]).
pub fn tool_call_output(result: Result<String, ToolExecutionError>) -> (r: String)
    ensures
        r@ == call_output_text(
            match result {
                Ok(text) => Ok::<Seq<char>, ToolExecutionError>(text@),
                Err(e) => Err::<Seq<char>, ToolExecutionError>(e),
            },
        ),
{
    match result {
        Ok(text) => text,
        Err(e) => {
            let message = e.message();
            let mut out = String::new();
            out.push('{');
            push_json_string("error", &mut out);
            out.push(':');
            push_json_string(message.as_str(), &mut out);
            out.push('}');
            proof {
                reveal_strlit("error");
                let members = seq![("error"@, Json::Str(e.spec_message()))];
                assert(members.len() == 1);
                assert(members_text(members) == seq!['"'] + escape_json("error"@) + seq!['"', ':']
                    + json_text(Json::Str(e.spec_message())));
                assert(json_text(Json::Str(e.spec_message())) == seq!['"'] + escape_json(
                    e.spec_message(),
                ) + seq!['"']);
                assert(out@ =~= seq!['{'] + members_text(members) + seq!['}']);
            }
            out
        },
    }
}

impl Clone for ToolNames {
    /// An equal copy of the registered names.
    fn clone(&self) -> (r: Self)
        ensures
            r@ == self@,
    {
        proof {
            use_type_invariant(self);
        }
        let v = &self.names;
        let mut out: Vec<String> = Vec::new();
        let mut i: usize = 0;
        while i < v.len()
            invariant
                i <= v@.len(),
                out@.len() == i,
                forall|j: int| 0 <= j < i ==> (#[trigger] out@[j])@ == v@[j]@,
            decreases v@.len() - i,
        {
            out.push(v[i].clone());
            i = i + 1;
        }
        assert(out@.map_values(|s: String| s@) =~= v@.map_values(|s: String| s@));
        ToolNames { names: out }
    }
}

} // verus!
