use vstd::prelude::*;

verus! {

/// The kind of a Lua value: which alternative of the runtime's value union it is.
#[derive(Clone, Copy, PartialEq, Eq, Debug, Structural)]
pub enum ValueType {
    /// The Lua value `nil`.
    Nil,
    /// The Lua value `true` or `false`.
    Boolean,
    /// A "light userdata" object, equivalent to a raw pointer.
    LightUserData,
    /// An integer number.
    Integer,
    /// A floating point number.
    Number,
    /// An interned string, managed by Lua; it need not be valid UTF-8.
    String,
    /// Reference to a Lua table.
    Table,
    /// Reference to a Lua function (or closure).
    Function,
    /// Reference to a Lua thread (or coroutine).
    Thread,
    /// Reference to a userdata object that holds a custom type.
    UserData,
    /// The builtin userdata type that carries an error.
    Error,
}

impl ValueType {
    /// The kind's name as text: its identifier, letter for letter.
    pub open spec fn name_text(self) -> Seq<char> {
        match self {
            ValueType::Nil => "Nil"@,
            ValueType::Boolean => "Boolean"@,
            ValueType::LightUserData => "LightUserData"@,
            ValueType::Integer => "Integer"@,
            ValueType::Number => "Number"@,
            ValueType::String => "String"@,
            ValueType::Table => "Table"@,
            ValueType::Function => "Function"@,
            ValueType::Thread => "Thread"@,
            ValueType::UserData => "UserData"@,
            ValueType::Error => "Error"@,
        }
    }

    /// The kind's name.
    pub fn name(self) -> (text: &'static str)
        ensures
            text@ == self.name_text(),
    {
        match self {
            ValueType::Nil => "Nil",
            ValueType::Boolean => "Boolean",
            ValueType::LightUserData => "LightUserData",
            ValueType::Integer => "Integer",
            ValueType::Number => "Number",
            ValueType::String => "String",
            ValueType::Table => "Table",
            ValueType::Function => "Function",
            ValueType::Thread => "Thread",
            ValueType::UserData => "UserData",
            ValueType::Error => "Error",
        }
    }

    /// The kind's name, as an owned string.
    pub fn to_string(&self) -> (text: String)
        ensures
            text@ == self.name_text(),
    {
        self.name().to_owned()
    }
}

} // verus!
