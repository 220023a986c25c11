//! Logical data types of arrays and the fields that name their children.

use vstd::prelude::*;

verus! {

/// The physical/logical type of an array.
pub enum ArrowDataType {
    Null,
    Boolean,
    Int32,
    Int64,
    UInt32,
    UInt64,
    Float32,
    Float64,
    Utf8View,
    BinaryView,
    /// A variable-length list whose items are described by the field.
    List(Box<Field>),
    /// A list whose every slot holds exactly `usize` items of the field's type.
    FixedSizeList(Box<Field>, usize),
    /// A user type that is stored as its inner type.
    Extension(Box<ExtensionType>),
}

/// A named, possibly nullable, child type.
pub struct Field {
    pub name: String,
    pub dtype: ArrowDataType,
    pub is_nullable: bool,
}

/// An extension type: a name, the type it is stored as, and optional metadata.
pub struct ExtensionType {
    pub name: String,
    pub inner: ArrowDataType,
    pub metadata: Option<String>,
}

/// The type an array is stored as: extension types are unwrapped.
pub open spec fn logical_type(dt: ArrowDataType) -> ArrowDataType
    decreases dt,
{
    match dt {
        ArrowDataType::Extension(ext) => logical_type(ext.inner),
        _ => dt,
    }
}

/// Equality of data types, names compared by their characters.
pub open spec fn same_dtype(a: ArrowDataType, b: ArrowDataType) -> bool
    decreases a,
{
    match a {
        ArrowDataType::List(fa) => match b {
            ArrowDataType::List(fb) => fa.name@ == fb.name@ && fa.is_nullable == fb.is_nullable
                && same_dtype(fa.dtype, fb.dtype),
            _ => false,
        },
        ArrowDataType::FixedSizeList(fa, sa) => match b {
            ArrowDataType::FixedSizeList(fb, sb) => sa == sb && fa.name@ == fb.name@
                && fa.is_nullable == fb.is_nullable && same_dtype(fa.dtype, fb.dtype),
            _ => false,
        },
        ArrowDataType::Extension(ea) => match b {
            ArrowDataType::Extension(eb) => ea.name@ == eb.name@ && same_dtype(ea.inner, eb.inner)
                && match (ea.metadata, eb.metadata) {
                (None, None) => true,
                (Some(ma), Some(mb)) => ma@ == mb@,
                _ => false,
            },
            _ => false,
        },
        _ => a == b,
    }
}

/// A data type with every name given by its characters.
pub enum DtypeShape {
    Null,
    Boolean,
    Int32,
    Int64,
    UInt32,
    UInt64,
    Float32,
    Float64,
    Utf8View,
    BinaryView,
    /// Child name, nullability and type.
    List(Seq<char>, bool, Box<DtypeShape>),
    /// Child name, nullability and type, and list size.
    FixedSizeList(Seq<char>, bool, Box<DtypeShape>, usize),
    /// Name, stored type and metadata.
    Extension(Seq<char>, Box<DtypeShape>, Option<Seq<char>>),
}

/// The shape of a data type: the type itself, every name taken by its characters.
pub open spec fn shape(dt: ArrowDataType) -> DtypeShape
    decreases dt,
{
    match dt {
        ArrowDataType::Null => DtypeShape::Null,
        ArrowDataType::Boolean => DtypeShape::Boolean,
        ArrowDataType::Int32 => DtypeShape::Int32,
        ArrowDataType::Int64 => DtypeShape::Int64,
        ArrowDataType::UInt32 => DtypeShape::UInt32,
        ArrowDataType::UInt64 => DtypeShape::UInt64,
        ArrowDataType::Float32 => DtypeShape::Float32,
        ArrowDataType::Float64 => DtypeShape::Float64,
        ArrowDataType::Utf8View => DtypeShape::Utf8View,
        ArrowDataType::BinaryView => DtypeShape::BinaryView,
        ArrowDataType::List(f) => DtypeShape::List(f.name@, f.is_nullable, Box::new(shape(f.dtype))),
        ArrowDataType::FixedSizeList(f, s) => DtypeShape::FixedSizeList(
            f.name@,
            f.is_nullable,
            Box::new(shape(f.dtype)),
            s,
        ),
        ArrowDataType::Extension(e) => DtypeShape::Extension(
            e.name@,
            Box::new(shape(e.inner)),
            match e.metadata {
                Some(m) => Some(m@),
                None => None,
            },
        ),
    }
}

/// Two data types are the same exactly when they agree at every level: the same
/// variant, sizes, nullability, names (by characters), metadata and child types.
pub proof fn lemma_same_dtype_is_structural(a: ArrowDataType, b: ArrowDataType)
    ensures
        same_dtype(a, b) <==> shape(a) == shape(b),
    decreases a,
{
    match a {
        ArrowDataType::List(fa) => match b {
            ArrowDataType::List(fb) => lemma_same_dtype_is_structural(fa.dtype, fb.dtype),
            _ => {},
        },
        ArrowDataType::FixedSizeList(fa, _) => match b {
            ArrowDataType::FixedSizeList(fb, _) => lemma_same_dtype_is_structural(
                fa.dtype,
                fb.dtype,
            ),
            _ => {},
        },
        ArrowDataType::Extension(ea) => match b {
            ArrowDataType::Extension(eb) => {
                lemma_same_dtype_is_structural(ea.inner, eb.inner);
            },
            _ => {},
        },
        _ => match b {
            ArrowDataType::List(_) => {},
            ArrowDataType::FixedSizeList(_, _) => {},
            ArrowDataType::Extension(_) => {},
            _ => {},
        },
    }
}

/// Two fixed-size list types are the same only if their sizes and their child types are.
pub proof fn lemma_same_fixed_size_list_children(fa: Field, sa: usize, fb: Field, sb: usize)
    requires
        same_dtype(
            ArrowDataType::FixedSizeList(Box::new(fa), sa),
            ArrowDataType::FixedSizeList(Box::new(fb), sb),
        ),
    ensures
        sa == sb,
        shape(fa.dtype) == shape(fb.dtype),
        fa.name@ == fb.name@,
{
    lemma_same_dtype_is_structural(
        ArrowDataType::FixedSizeList(Box::new(fa), sa),
        ArrowDataType::FixedSizeList(Box::new(fb), sb),
    );
}

/// Every data type equals itself.
pub proof fn lemma_same_dtype_reflexive(a: ArrowDataType)
    ensures
        same_dtype(a, a),
    decreases a,
{
    match a {
        ArrowDataType::List(fa) => lemma_same_dtype_reflexive(fa.dtype),
        ArrowDataType::FixedSizeList(fa, _) => lemma_same_dtype_reflexive(fa.dtype),
        ArrowDataType::Extension(ea) => lemma_same_dtype_reflexive(ea.inner),
        _ => {},
    }
}

impl Clone for Field {
    fn clone(&self) -> (r: Self)
        ensures
            r == *self,
    {
        Field { name: self.name.clone(), dtype: self.dtype.clone(), is_nullable: self.is_nullable }
    }
}

impl Clone for ExtensionType {
    fn clone(&self) -> (r: Self)
        ensures
            r == *self,
    {
        let metadata = match &self.metadata {
            Some(m) => Some(m.clone()),
            None => None,
        };
        ExtensionType { name: self.name.clone(), inner: self.inner.clone(), metadata }
    }
}

impl Clone for ArrowDataType {
    fn clone(&self) -> (r: Self)
        ensures
            r == *self,
        decreases self,
    {
        match self {
            ArrowDataType::Null => ArrowDataType::Null,
            ArrowDataType::Boolean => ArrowDataType::Boolean,
            ArrowDataType::Int32 => ArrowDataType::Int32,
            ArrowDataType::Int64 => ArrowDataType::Int64,
            ArrowDataType::UInt32 => ArrowDataType::UInt32,
            ArrowDataType::UInt64 => ArrowDataType::UInt64,
            ArrowDataType::Float32 => ArrowDataType::Float32,
            ArrowDataType::Float64 => ArrowDataType::Float64,
            ArrowDataType::Utf8View => ArrowDataType::Utf8View,
            ArrowDataType::BinaryView => ArrowDataType::BinaryView,
            ArrowDataType::List(f) => {
                let fc = Field {
                    name: f.name.clone(),
                    dtype: f.dtype.clone(),
                    is_nullable: f.is_nullable,
                };
                ArrowDataType::List(Box::new(fc))
            },
            ArrowDataType::FixedSizeList(f, s) => {
                let fc = Field {
                    name: f.name.clone(),
                    dtype: f.dtype.clone(),
                    is_nullable: f.is_nullable,
                };
                ArrowDataType::FixedSizeList(Box::new(fc), *s)
            },
            ArrowDataType::Extension(e) => {
                let metadata = match &e.metadata {
                    Some(m) => Some(m.clone()),
                    None => None,
                };
                let ec = ExtensionType { name: e.name.clone(), inner: e.inner.clone(), metadata };
                ArrowDataType::Extension(Box::new(ec))
            },
        }
    }
}

impl Field {
    /// Creates a field from its name, type and nullability.
    pub fn new(name: String, dtype: ArrowDataType, is_nullable: bool) -> (r: Field)
        ensures
            r.name == name,
            r.dtype == dtype,
            r.is_nullable == is_nullable,
    {
        Field { name, dtype, is_nullable }
    }

    /// The type of the field.
    pub fn dtype(&self) -> (r: &ArrowDataType)
        ensures
            *r == self.dtype,
    {
        &self.dtype
    }
}

impl ArrowDataType {
    /// The type this one is stored as: extension types are unwrapped, others returned as is.
    pub fn to_logical_type(&self) -> (r: &ArrowDataType)
        ensures
            *r == logical_type(*self),
        decreases self,
    {
        match self {
            ArrowDataType::Extension(ext) => ext.inner.to_logical_type(),
            _ => self,
        }
    }

    /// Structural equality of data types.
    pub fn eq_dtype(&self, other: &ArrowDataType) -> (r: bool)
        ensures
            r == same_dtype(*self, *other),
            r <==> shape(*self) == shape(*other),
        decreases self,
    {
        proof {
            lemma_same_dtype_is_structural(*self, *other);
        }
        match self {
            ArrowDataType::Null => matches!(other, ArrowDataType::Null),
            ArrowDataType::Boolean => matches!(other, ArrowDataType::Boolean),
            ArrowDataType::Int32 => matches!(other, ArrowDataType::Int32),
            ArrowDataType::Int64 => matches!(other, ArrowDataType::Int64),
            ArrowDataType::UInt32 => matches!(other, ArrowDataType::UInt32),
            ArrowDataType::UInt64 => matches!(other, ArrowDataType::UInt64),
            ArrowDataType::Float32 => matches!(other, ArrowDataType::Float32),
            ArrowDataType::Float64 => matches!(other, ArrowDataType::Float64),
            ArrowDataType::Utf8View => matches!(other, ArrowDataType::Utf8View),
            ArrowDataType::BinaryView => matches!(other, ArrowDataType::BinaryView),
            ArrowDataType::List(fa) => match other {
                ArrowDataType::List(fb) => fa.name == fb.name && fa.is_nullable == fb.is_nullable
                    && fa.dtype.eq_dtype(&fb.dtype),
                _ => false,
            },
            ArrowDataType::FixedSizeList(fa, sa) => match other {
                ArrowDataType::FixedSizeList(fb, sb) => *sa == *sb && fa.name == fb.name
                    && fa.is_nullable == fb.is_nullable && fa.dtype.eq_dtype(&fb.dtype),
                _ => false,
            },
            ArrowDataType::Extension(ea) => match other {
                ArrowDataType::Extension(eb) => {
                    let meta_eq = match (&ea.metadata, &eb.metadata) {
                        (None, None) => true,
                        (Some(ma), Some(mb)) => *ma == *mb,
                        _ => false,
                    };
                    ea.name == eb.name && ea.inner.eq_dtype(&eb.inner) && meta_eq
                },
                _ => false,
            },
        }
    }
}

} // verus!
