//! The LSP specification's meta model: the requests, notifications and types
//! that the protocol defines, as the specification's JSON describes them.
use vstd::prelude::*;

verus! {

/// Metadata about the specification.
#[derive(Debug, Clone, PartialEq, Eq)]
pub struct MetaData {
    /// The version of the specification.
    pub version: String,
}

/// Which way a message travels.
#[derive(Debug, Clone, Copy, PartialEq, Eq)]
pub enum MessageDirection {
    ClientToServer,
    ServerToClient,
    Both,
}

/// The base types of the protocol.
#[derive(Debug, Clone, Copy, PartialEq, Eq)]
pub enum BaseType {
    URI,
    DocumentUri,
    Integer,
    UInteger,
    Decimal,
    RegExp,
    String,
    Boolean,
    Null,
}

/// The display name of each base type.
pub open spec fn base_type_name(t: BaseType) -> Seq<char> {
    match t {
        BaseType::URI => "URI"@,
        BaseType::DocumentUri => "DocumentUri"@,
        BaseType::Integer => "Integer"@,
        BaseType::UInteger => "Uinteger"@,
        BaseType::Decimal => "Decimal"@,
        BaseType::RegExp => "RegExp"@,
        BaseType::String => "String"@,
        BaseType::Boolean => "Boolean"@,
        BaseType::Null => "Null"@,
    }
}

impl BaseType {
    /// The name of the base type.
    pub fn name(&self) -> (r: &'static str)
        ensures
            r@ == base_type_name(*self),
    {
        match self {
            BaseType::URI => "URI",
            BaseType::DocumentUri => "DocumentUri",
            BaseType::Integer => "Integer",
            BaseType::UInteger => "Uinteger",
            BaseType::Decimal => "Decimal",
            BaseType::RegExp => "RegExp",
            BaseType::String => "String",
            BaseType::Boolean => "Boolean",
            BaseType::Null => "Null",
        }
    }
}

/// A type of the protocol.
#[derive(Debug, PartialEq, Eq)]
pub enum DataType {
    Base(BaseType),
    Reference { name: String },
    Array { element: Box<DataType> },
    Or { items: Vec<DataType> },
    And { items: Vec<DataType> },
    MapType { key: Box<DataType>, value: Box<DataType> },
    Tuple { items: Vec<DataType> },
    StringLiteral { value: String },
    IntegerLiteral { value: i64 },
    BooleanLiteral { value: bool },
    StructureLiteral { value: StructureLiteral },
}

/// A property of a structure.
#[derive(Debug, PartialEq, Eq)]
pub struct Property {
    /// The property name.
    pub name: String,
    /// The property type.
    pub data_type: DataType,
    /// Whether the property is optional.
    pub optional: bool,
    /// Documentation.
    pub documentation: Option<String>,
    /// Whether the property is deprecated.
    pub deprecated: Option<String>,
    /// When this was introduced.
    pub since: Option<String>,
    /// Whether this is proposed.
    pub proposed: bool,
}

/// An anonymous structure.
#[derive(Debug, PartialEq, Eq)]
pub struct StructureLiteral {
    /// The structure's properties.
    pub properties: Vec<Property>,
    /// Documentation.
    pub documentation: Option<String>,
    /// Whether the structure is deprecated.
    pub deprecated: Option<String>,
    /// When this was introduced.
    pub since: Option<String>,
    /// Whether this is proposed.
    pub proposed: bool,
}

/// A request of the protocol.
#[derive(Debug, PartialEq, Eq)]
pub struct Request {
    /// The request method.
    pub method: String,
    /// The message direction.
    pub message_direction: MessageDirection,
    /// The request parameters.
    pub params: Option<DataType>,
    /// The request result.
    pub result: DataType,
    /// Optional partial result type.
    pub partial_result: Option<DataType>,
    /// Optional error data type.
    pub error_data: Option<DataType>,
    /// Optional registration method.
    pub registration_method: Option<String>,
    /// Optional registration options.
    pub registration_options: Option<DataType>,
    /// Documentation.
    pub documentation: Option<String>,
    /// Whether the request is deprecated.
    pub deprecated: Option<String>,
    /// When this was introduced.
    pub since: Option<String>,
    /// Whether this is proposed.
    pub proposed: bool,
}

/// A notification of the protocol.
#[derive(Debug, PartialEq, Eq)]
pub struct Notification {
    /// The notification method.
    pub method: String,
    /// The message direction.
    pub message_direction: MessageDirection,
    /// The notification parameters.
    pub params: Option<DataType>,
    /// Optional registration method.
    pub registration_method: Option<String>,
    /// Optional registration options.
    pub registration_options: Option<DataType>,
    /// Documentation.
    pub documentation: Option<String>,
    /// Whether the notification is deprecated.
    pub deprecated: Option<String>,
    /// When this was introduced.
    pub since: Option<String>,
    /// Whether this is proposed.
    pub proposed: bool,
}

/// A named structure of the protocol.
#[derive(Debug, PartialEq, Eq)]
pub struct Structure {
    /// The structure name.
    pub name: String,
    /// The structure's properties.
    pub properties: Vec<Property>,
    /// Types this extends.
    pub extends: Vec<DataType>,
    /// Types this mixes in.
    pub mixins: Vec<DataType>,
    /// Documentation.
    pub documentation: Option<String>,
    /// Whether the structure is deprecated.
    pub deprecated: Option<String>,
    /// When this was introduced.
    pub since: Option<String>,
    /// Whether this is proposed.
    pub proposed: bool,
}

/// A named alias of a type.
#[derive(Debug, PartialEq, Eq)]
pub struct TypeAlias {
    /// The alias name.
    pub name: String,
    /// The type being aliased.
    pub type_def: DataType,
    /// Documentation.
    pub documentation: Option<String>,
    /// Whether the alias is deprecated.
    pub deprecated: Option<String>,
    /// When this was introduced.
    pub since: Option<String>,
    /// Whether this is proposed.
    pub proposed: bool,
}

} // verus!
