//! Strict response formats and function tools built from JSON Schema
//! documents, and the wire objects that announce them.
use vstd::prelude::*;
use core::marker::PhantomData;
use crate::json::{Json, JsonObject, JsonValue, obj_insert};
use crate::structured::{
    SchemaError, StructuredError, normalize_strict_schema, strict_schema, valid_name, validate_name,
};

verus! {

broadcast use crate::json::lemma_value_view;

/// The members of the Responses API `text.format` object of a strict
/// response format.
pub open spec fn response_format_members(
    name: Seq<char>,
    schema: Json,
    description: Option<Seq<char>>,
) -> Seq<(Seq<char>, Json)> {
    let base = obj_insert(
        obj_insert(
            obj_insert(obj_insert(Seq::empty(), "type"@, Json::Str("json_schema"@)), "name"@, Json::Str(name)),
            "strict"@,
            Json::Bool(true),
        ),
        "schema"@,
        schema,
    );
    match description {
        Some(d) => obj_insert(base, "description"@, Json::Str(d)),
        None => base,
    }
}

/// The members of the Responses API function-tool object of a strict
/// function.
pub open spec fn tool_members(
    name: Seq<char>,
    parameters: Json,
    output: Json,
    description: Option<Seq<char>>,
) -> Seq<(Seq<char>, Json)> {
    let base = obj_insert(
        obj_insert(
            obj_insert(
                obj_insert(obj_insert(Seq::empty(), "type"@, Json::Str("function"@)), "name"@, Json::Str(name)),
                "strict"@,
                Json::Bool(true),
            ),
            "parameters"@,
            parameters,
        ),
        "output_schema"@,
        output,
    );
    match description {
        Some(d) => obj_insert(base, "description"@, Json::Str(d)),
        None => base,
    }
}

/// The view of an optional string.
pub open spec fn opt_view(s: Option<String>) -> Option<Seq<char>> {
    match s {
        Some(x) => Some(x@),
        None => None,
    }
}

/// A strict response format for values of type `T`: a valid name and a
/// normalized schema.
#[derive(Debug)]
pub struct StructuredOutput<T> {
    name: String,
    description: Option<String>,
    schema: JsonValue,
    marker: PhantomData<T>,
}

impl<T> StructuredOutput<T> {
    pub closed spec fn spec_name(&self) -> Seq<char> {
        self.name@
    }

    pub closed spec fn spec_description(&self) -> Option<Seq<char>> {
        opt_view(self.description)
    }

    pub closed spec fn spec_schema(&self) -> Json {
        self.schema@
    }

    /// A response format named `name` for the JSON Schema `schema` of `T`,
    /// once the name is checked and the schema normalized.
    pub fn from_schema(name: &str, schema: JsonValue) -> (r: Result<Self, StructuredError>)
        ensures
            !valid_name(name@) ==> (r matches Err(e) && e@ == SchemaError::InvalidName(name@)),
            valid_name(name@) ==> match strict_schema(schema@) {
                Ok(w) => r matches Ok(o) && o.spec_name() == name@ && o.spec_schema() == w
                    && o.spec_description() is None,
                Err(err) => r matches Err(e) && e@ == err,
            },
    {
        match validate_name(name) {
            Ok(()) => {},
            Err(e) => {
                return Err(e);
            },
        }
        let mut schema = schema;
        match normalize_strict_schema(&mut schema) {
            Ok(()) => {},
            Err(e) => {
                return Err(e);
            },
        }
        Ok(StructuredOutput { name: name.to_owned(), description: None, schema, marker: PhantomData })
    }

    /// Adds a description for people.
    pub fn with_description(self, description: &str) -> (r: Self)
        ensures
            r.spec_description() == Some(description@),
            r.spec_name() == self.spec_name(),
            r.spec_schema() == self.spec_schema(),
    {
        StructuredOutput { description: Some(description.to_owned()), ..self }
    }

    /// The wire name of the schema.
    pub fn name(&self) -> (r: &str)
        ensures
            r@ == self.spec_name(),
    {
        self.name.as_str()
    }

    /// The description, when there is one.
    pub fn description(&self) -> (r: Option<&str>)
        ensures
            match r {
                Some(d) => self.spec_description() == Some(d@),
                None => self.spec_description() is None,
            },
    {
        match &self.description {
            Some(d) => Some(d.as_str()),
            None => None,
        }
    }

    /// The normalized strict schema.
    pub fn schema(&self) -> (r: &JsonValue)
        ensures
            r@ == self.spec_schema(),
    {
        &self.schema
    }

    /// The Responses API `text.format` object.
    pub fn to_response_format(&self) -> (r: JsonValue)
        ensures
            r@ == Json::Object(
                response_format_members(self.spec_name(), self.spec_schema(), self.spec_description()),
            ),
    {
        let mut format = JsonObject::new();
        format.insert(String::from_str("type"), JsonValue::String(String::from_str("json_schema")));
        format.insert(String::from_str("name"), JsonValue::String(self.name.clone()));
        format.insert(String::from_str("strict"), JsonValue::Bool(true));
        format.insert(String::from_str("schema"), self.schema.duplicate());
        if let Some(d) = &self.description {
            format.insert(String::from_str("description"), JsonValue::String(d.clone()));
        }
        JsonValue::Object(format)
    }
}

/// A strict function tool whose arguments are `A` and whose result is `R`.
#[derive(Debug)]
pub struct TypedFunction<A, R> {
    name: String,
    description: Option<String>,
    parameters: JsonValue,
    output: JsonValue,
    marker: PhantomData<(A, R)>,
}

impl<A, R> TypedFunction<A, R> {
    pub closed spec fn spec_name(&self) -> Seq<char> {
        self.name@
    }

    pub closed spec fn spec_description(&self) -> Option<Seq<char>> {
        opt_view(self.description)
    }

    pub closed spec fn spec_parameters(&self) -> Json {
        self.parameters@
    }

    pub closed spec fn spec_output(&self) -> Json {
        self.output@
    }

    /// A function named `name` with the argument schema `parameters` and
    /// the result schema `output`, once the name is checked and both
    /// schemas normalized, arguments first.
    pub fn from_schemas(name: &str, parameters: JsonValue, output: JsonValue) -> (r: Result<
        Self,
        StructuredError,
    >)
        ensures
            !valid_name(name@) ==> (r matches Err(e) && e@ == SchemaError::InvalidName(name@)),
            valid_name(name@) ==> match (strict_schema(parameters@), strict_schema(output@)) {
                (Err(err), _) => r matches Err(e) && e@ == err,
                (Ok(_), Err(err)) => r matches Err(e) && e@ == err,
                (Ok(p), Ok(o)) => r matches Ok(f) && f.spec_name() == name@ && f.spec_parameters()
                    == p && f.spec_output() == o && f.spec_description() is None,
            },
    {
        match validate_name(name) {
            Ok(()) => {},
            Err(e) => {
                return Err(e);
            },
        }
        let mut parameters = parameters;
        let mut output = output;
        match normalize_strict_schema(&mut parameters) {
            Ok(()) => {},
            Err(e) => {
                return Err(e);
            },
        }
        match normalize_strict_schema(&mut output) {
            Ok(()) => {},
            Err(e) => {
                return Err(e);
            },
        }
        Ok(
            TypedFunction {
                name: name.to_owned(),
                description: None,
                parameters,
                output,
                marker: PhantomData,
            },
        )
    }

    /// Adds a description shown to the model.
    pub fn with_description(self, description: &str) -> (r: Self)
        ensures
            r.spec_description() == Some(description@),
            r.spec_name() == self.spec_name(),
            r.spec_parameters() == self.spec_parameters(),
            r.spec_output() == self.spec_output(),
    {
        TypedFunction { description: Some(description.to_owned()), ..self }
    }

    /// The function name sent on the wire.
    pub fn name(&self) -> (r: &str)
        ensures
            r@ == self.spec_name(),
    {
        self.name.as_str()
    }

    /// The description, when there is one.
    pub fn description(&self) -> (r: Option<&str>)
        ensures
            match r {
                Some(d) => self.spec_description() == Some(d@),
                None => self.spec_description() is None,
            },
    {
        match &self.description {
            Some(d) => Some(d.as_str()),
            None => None,
        }
    }

    /// The strict argument schema.
    pub fn parameters_schema(&self) -> (r: &JsonValue)
        ensures
            r@ == self.spec_parameters(),
    {
        &self.parameters
    }

    /// The strict result schema.
    pub fn output_schema(&self) -> (r: &JsonValue)
        ensures
            r@ == self.spec_output(),
    {
        &self.output
    }

    /// The Responses API function-tool object.
    pub fn to_tool_value(&self) -> (r: JsonValue)
        ensures
            r@ == Json::Object(
                tool_members(
                    self.spec_name(),
                    self.spec_parameters(),
                    self.spec_output(),
                    self.spec_description(),
                ),
            ),
    {
        let mut tool = JsonObject::new();
        tool.insert(String::from_str("type"), JsonValue::String(String::from_str("function")));
        tool.insert(String::from_str("name"), JsonValue::String(self.name.clone()));
        tool.insert(String::from_str("strict"), JsonValue::Bool(true));
        tool.insert(String::from_str("parameters"), self.parameters.duplicate());
        tool.insert(String::from_str("output_schema"), self.output.duplicate());
        if let Some(d) = &self.description {
            tool.insert(String::from_str("description"), JsonValue::String(d.clone()));
        }
        JsonValue::Object(tool)
    }
}

} // verus!
