//! How the value of a column is read, by the name of the column's type.

use vstd::prelude::*;
use vstd::string::*;
use crate::text::str_eq;

verus! {

/// The form in which the value of a column is read from a row.
#[derive(Clone, Copy, Debug, PartialEq, Eq, Structural)]
pub enum ColumnKind {
    /// No value.
    Null,
    /// A truth value.
    Boolean,
    /// A signed integer of 8 bits.
    TinyInt,
    /// A signed integer of 16 bits.
    SmallInt,
    /// A signed integer of 32 bits.
    Int,
    /// A signed integer of 64 bits.
    BigInt,
    /// An unsigned integer of 8 bits.
    TinyIntUnsigned,
    /// An unsigned integer of 16 bits.
    SmallIntUnsigned,
    /// An unsigned integer of 32 bits.
    IntUnsigned,
    /// An unsigned integer of 64 bits.
    BigIntUnsigned,
    /// A floating-point number of single precision.
    Float,
    /// A floating-point number of double precision.
    Double,
    /// A decimal number, handed over as text.
    Decimal,
    /// A time of day, handed over as text.
    Time,
    /// A date, handed over as text.
    Date,
    /// A date and time, handed over as text.
    DateTime,
    /// A point in time, handed over as text.
    Timestamp,
    /// Text or bytes, handed over as bytes.
    Binary,
}

/// Why the value of a column cannot be read.
#[derive(Clone, Copy, Debug, PartialEq, Eq, Structural)]
pub enum ColumnError {
    /// The column holds bits, for which the host has no form.
    UnsupportedBit,
    /// The column's type is not known.
    UnknownType,
}

/// What the host is handed for the value of a column.
#[derive(Clone, Copy, Debug, PartialEq, Eq, Structural)]
pub enum CellForm {
    /// No value.
    Nil,
    /// A truth value.
    Boolean,
    /// A number of the host's own kind, a double.
    Number,
    /// A signed integer of 64 bits, kept whole.
    Integer,
    /// An unsigned integer of 64 bits, kept whole.
    Unsigned,
    /// Text.
    Text,
    /// Bytes.
    Bytes,
}

impl ColumnKind {
    /// What the host is handed for a value that is read in this form:
    /// integers of up to 32 bits and floating-point numbers become numbers
    /// of the host's own kind, integers of 64 bits are kept whole, decimals,
    /// dates and times become text, and text and binary columns become
    /// bytes.
    pub open spec fn form(self) -> CellForm {
        match self {
            ColumnKind::Null => CellForm::Nil,
            ColumnKind::Boolean => CellForm::Boolean,
            ColumnKind::TinyInt
            | ColumnKind::SmallInt
            | ColumnKind::Int
            | ColumnKind::TinyIntUnsigned
            | ColumnKind::SmallIntUnsigned
            | ColumnKind::IntUnsigned
            | ColumnKind::Float
            | ColumnKind::Double => CellForm::Number,
            ColumnKind::BigInt => CellForm::Integer,
            ColumnKind::BigIntUnsigned => CellForm::Unsigned,
            ColumnKind::Decimal
            | ColumnKind::Time
            | ColumnKind::Date
            | ColumnKind::DateTime
            | ColumnKind::Timestamp => CellForm::Text,
            ColumnKind::Binary => CellForm::Bytes,
        }
    }

    /// What the host is handed for a value that is read in this form.
    pub fn cell_form(self) -> (form: CellForm)
        ensures
            form == self.form(),
    {
        match self {
            ColumnKind::Null => CellForm::Nil,
            ColumnKind::Boolean => CellForm::Boolean,
            ColumnKind::TinyInt => CellForm::Number,
            ColumnKind::SmallInt => CellForm::Number,
            ColumnKind::Int => CellForm::Number,
            ColumnKind::TinyIntUnsigned => CellForm::Number,
            ColumnKind::SmallIntUnsigned => CellForm::Number,
            ColumnKind::IntUnsigned => CellForm::Number,
            ColumnKind::Float => CellForm::Number,
            ColumnKind::Double => CellForm::Number,
            ColumnKind::BigInt => CellForm::Integer,
            ColumnKind::BigIntUnsigned => CellForm::Unsigned,
            ColumnKind::Decimal => CellForm::Text,
            ColumnKind::Time => CellForm::Text,
            ColumnKind::Date => CellForm::Text,
            ColumnKind::DateTime => CellForm::Text,
            ColumnKind::Timestamp => CellForm::Text,
            ColumnKind::Binary => CellForm::Bytes,
        }
    }
}

impl ColumnError {
    /// Why the value of a column of the type named `name` cannot be read,
    /// in words.
    pub open spec fn text(self, name: Seq<char>) -> Seq<char> {
        match self {
            ColumnError::UnsupportedBit => "unsupported type: \"BIT\""@,
            ColumnError::UnknownType => "unsupported column type: "@ + name,
        }
    }

    /// Why the value of a column of the type named `name` cannot be read,
    /// in words.
    pub fn message(self, name: &str) -> (text: String)
        ensures
            text@ == self.text(name@),
    {
        match self {
            ColumnError::UnsupportedBit => String::from_str("unsupported type: \"BIT\""),
            ColumnError::UnknownType => String::from_str("unsupported column type: ").concat(name),
        }
    }
}

/// The form in which a column of the type named `name` is read.
pub open spec fn kind_of(name: Seq<char>) -> Result<ColumnKind, ColumnError> {
    if name == "NULL"@ {
        Ok(ColumnKind::Null)
    }     else if name == "BOOLEAN"@ || name == "BOOL"@ {
        Ok(ColumnKind::Boolean)
    }     else if name == "TINYINT"@ {
        Ok(ColumnKind::TinyInt)
    }     else if name == "SMALLINT"@ {
        Ok(ColumnKind::SmallInt)
    }     else if name == "INT"@ || name == "INTEGER"@ {
        Ok(ColumnKind::Int)
    }     else if name == "BIGINT"@ {
        Ok(ColumnKind::BigInt)
    }     else if name == "TINYINT UNSIGNED"@ {
        Ok(ColumnKind::TinyIntUnsigned)
    }     else if name == "SMALLINT UNSIGNED"@ {
        Ok(ColumnKind::SmallIntUnsigned)
    }     else if name == "INT UNSIGNED"@ {
        Ok(ColumnKind::IntUnsigned)
    }     else if name == "BIGINT UNSIGNED"@ {
        Ok(ColumnKind::BigIntUnsigned)
    }     else if name == "FLOAT"@ {
        Ok(ColumnKind::Float)
    }     else if name == "DOUBLE"@ {
        Ok(ColumnKind::Double)
    }     else if name == "DECIMAL"@ {
        Ok(ColumnKind::Decimal)
    }     else if name == "TIME"@ {
        Ok(ColumnKind::Time)
    }     else if name == "DATE"@ {
        Ok(ColumnKind::Date)
    }     else if name == "DATETIME"@ {
        Ok(ColumnKind::DateTime)
    }     else if name == "TIMESTAMP"@ {
        Ok(ColumnKind::Timestamp)
    }     else if name == "BINARY"@ || name == "VARBINARY"@ || name == "TINYBLOB"@ || name == "BLOB"@ || name == "MEDIUMBLOB"@ || name == "LONGBLOB"@ || name == "CHAR"@ || name == "VARCHAR"@ || name == "TEXT"@ || name == "TINYTEXT"@ || name == "MEDIUMTEXT"@ || name == "LONGTEXT"@ || name == "JSON"@ || name == "ENUM"@ || name == "SET"@ {
        Ok(ColumnKind::Binary)
    } else if name == "BIT"@ {
        Err(ColumnError::UnsupportedBit)
    } else {
        Err(ColumnError::UnknownType)
    }
}

/// The form in which a column of the type named `name` is read from a row.
/// A column of bits, or of a type that is not known, cannot be read.
pub fn column_kind(name: &str) -> (kind: Result<ColumnKind, ColumnError>)
    ensures
        kind == kind_of(name@),
{
    if str_eq(name, "NULL") {
        Ok(ColumnKind::Null)
    }     else if str_eq(name, "BOOLEAN") || str_eq(name, "BOOL") {
        Ok(ColumnKind::Boolean)
    }     else if str_eq(name, "TINYINT") {
        Ok(ColumnKind::TinyInt)
    }     else if str_eq(name, "SMALLINT") {
        Ok(ColumnKind::SmallInt)
    }     else if str_eq(name, "INT") || str_eq(name, "INTEGER") {
        Ok(ColumnKind::Int)
    }     else if str_eq(name, "BIGINT") {
        Ok(ColumnKind::BigInt)
    }     else if str_eq(name, "TINYINT UNSIGNED") {
        Ok(ColumnKind::TinyIntUnsigned)
    }     else if str_eq(name, "SMALLINT UNSIGNED") {
        Ok(ColumnKind::SmallIntUnsigned)
    }     else if str_eq(name, "INT UNSIGNED") {
        Ok(ColumnKind::IntUnsigned)
    }     else if str_eq(name, "BIGINT UNSIGNED") {
        Ok(ColumnKind::BigIntUnsigned)
    }     else if str_eq(name, "FLOAT") {
        Ok(ColumnKind::Float)
    }     else if str_eq(name, "DOUBLE") {
        Ok(ColumnKind::Double)
    }     else if str_eq(name, "DECIMAL") {
        Ok(ColumnKind::Decimal)
    }     else if str_eq(name, "TIME") {
        Ok(ColumnKind::Time)
    }     else if str_eq(name, "DATE") {
        Ok(ColumnKind::Date)
    }     else if str_eq(name, "DATETIME") {
        Ok(ColumnKind::DateTime)
    }     else if str_eq(name, "TIMESTAMP") {
        Ok(ColumnKind::Timestamp)
    }     else if str_eq(name, "BINARY") || str_eq(name, "VARBINARY") || str_eq(name, "TINYBLOB") || str_eq(name, "BLOB") || str_eq(name, "MEDIUMBLOB") || str_eq(name, "LONGBLOB") || str_eq(name, "CHAR") || str_eq(name, "VARCHAR") || str_eq(name, "TEXT") || str_eq(name, "TINYTEXT") || str_eq(name, "MEDIUMTEXT") || str_eq(name, "LONGTEXT") || str_eq(name, "JSON") || str_eq(name, "ENUM") || str_eq(name, "SET") {
        Ok(ColumnKind::Binary)
    } else if str_eq(name, "BIT") {
        Err(ColumnError::UnsupportedBit)
    } else {
        Err(ColumnError::UnknownType)
    }
}

/// How the value of a column is read, given whether the value is missing
/// and the name of the column's type. A missing value is read as no value,
/// whatever the type, and the name of the type is not looked at.
pub fn column_reading(is_null: bool, name: &str) -> (kind: Result<ColumnKind, ColumnError>)
    ensures
        kind == if is_null {
            Ok::<ColumnKind, ColumnError>(ColumnKind::Null)
        } else {
            kind_of(name@)
        },
{
    if is_null {
        Ok(ColumnKind::Null)
    } else {
        column_kind(name)
    }
}

} // verus!
