//! The structural description of one numeric type: its namespaced name, the
//! closed family classification derived from that name, and its ordered
//! field list.

use vstd::prelude::*;

verus! {

/// The namespaced name of a type, as the external metadata catalog reports it.
pub struct TypeName {
    pub namespace: String,
    pub name: String,
}

/// The mathematical value of a [`TypeName`]: its two components as character
/// sequences.
pub ghost struct TypeNameView {
    pub namespace: Seq<char>,
    pub name: Seq<char>,
}

impl View for TypeName {
    type V = TypeNameView;

    open spec fn view(&self) -> TypeNameView {
        TypeNameView { namespace: self.namespace@, name: self.name@ }
    }
}

impl TypeName {
    /// A second `TypeName` with the same components.
    pub fn duplicate(&self) -> (r: TypeName)
        ensures
            r@ == self@,
    {
        TypeName {
            namespace: String::from_str(self.namespace.as_str()),
            name: String::from_str(self.name.as_str()),
        }
    }
}

/// The element type of one field: a primitive, named by its source-text
/// spelling, or a reference to another described type.
pub enum TypeKind {
    Primitive(String),
    Defined(TypeName),
}

/// The closed classification of a numeric type. Any type whose name is not
/// one of the five recognized shapes falls under `Other` and has no
/// operators emitted for it.
#[derive(Clone, Copy, PartialEq, Eq, Structural, Debug)]
pub enum Family {
    Vector2,
    Vector3,
    Vector4,
    Matrix3x2,
    Matrix4x4,
    Other,
}

/// The family a `(namespace, name)` pair classifies to. Exactly the five
/// recognized pairs map to a numeric family; everything else is `Other`.
pub open spec fn spec_family_of(namespace: Seq<char>, name: Seq<char>) -> Family {
    if namespace == "Windows.Foundation.Numerics"@ {
        if name == "Vector2"@ {
            Family::Vector2
        } else if name == "Vector3"@ {
            Family::Vector3
        } else if name == "Vector4"@ {
            Family::Vector4
        } else if name == "Matrix3x2"@ {
            Family::Matrix3x2
        } else if name == "Matrix4x4"@ {
            Family::Matrix4x4
        } else {
            Family::Other
        }
    } else {
        Family::Other
    }
}

/// Whether two string slices hold the same characters.
pub fn str_eq(a: &str, b: &str) -> (r: bool)
    ensures
        r == (a@ == b@),
{
    let la = a.unicode_len();
    let lb = b.unicode_len();
    if la != lb {
        return false;
    }
    let mut i: usize = 0;
    while i < la
        invariant
            la == a@.len(),
            la == b@.len(),
            i <= la,
            forall|j: int| 0 <= j < i ==> a@[j] == b@[j],
        decreases la - i,
    {
        if a.get_char(i) != b.get_char(i) {
            return false;
        }
        i += 1;
    }
    proof {
        assert(a@ =~= b@);
    }
    true
}

/// One numeric type as the generator sees it: its name, the family that name
/// classifies to, its fields in declaration order, and its binary-layout
/// signature (computed by an external stage and carried through unread).
pub struct Struct {
    pub name: TypeName,
    pub family: Family,
    pub fields: Vec<(String, TypeKind)>,
    pub signature: String,
}

/// The dependencies contributed by a prefix of a field list: the names of the
/// defined types that the fields refer to, in field order.
pub open spec fn spec_field_deps(fields: Seq<(String, TypeKind)>) -> Seq<TypeNameView>
    decreases fields.len(),
{
    if fields.len() == 0 {
        Seq::empty()
    } else {
        spec_field_deps(fields.drop_last()) + match fields.last().1 {
            TypeKind::Primitive(_) => Seq::<TypeNameView>::empty(),
            TypeKind::Defined(n) => seq![n@],
        }
    }
}

impl Struct {
    /// Builds the description of one type: the name pair is classified into
    /// its family exactly once, here; the field list and layout signature are
    /// taken as the external metadata stage supplies them.
    pub fn from_type_name(name: TypeName, fields: Vec<(String, TypeKind)>, signature: String) -> (s:
        Struct)
        ensures
            s.family == spec_family_of(name.namespace@, name.name@),
            s.name@ == name@,
            s.fields == fields,
            s.signature@ == signature@,
    {
        let family = if str_eq(name.namespace.as_str(), "Windows.Foundation.Numerics") {
            if str_eq(name.name.as_str(), "Vector2") {
                Family::Vector2
            } else if str_eq(name.name.as_str(), "Vector3") {
                Family::Vector3
            } else if str_eq(name.name.as_str(), "Vector4") {
                Family::Vector4
            } else if str_eq(name.name.as_str(), "Matrix3x2") {
                Family::Matrix3x2
            } else if str_eq(name.name.as_str(), "Matrix4x4") {
                Family::Matrix4x4
            } else {
                Family::Other
            }
        } else {
            Family::Other
        };
        Struct { name, family, fields, signature }
    }

    /// The names of the defined types this type's fields depend on, in field
    /// order.
    pub fn dependencies(&self) -> (r: Vec<TypeName>)
        ensures
            r@.len() == spec_field_deps(self.fields@).len(),
            forall|j: int|
                0 <= j < r@.len() ==> r@[j]@ == spec_field_deps(self.fields@)[j],
    {
        let mut r: Vec<TypeName> = Vec::new();
        let mut i: usize = 0;
        while i < self.fields.len()
            invariant
                i <= self.fields@.len(),
                r@.len() == spec_field_deps(self.fields@.take(i as int)).len(),
                forall|j: int|
                    0 <= j < r@.len() ==> r@[j]@ == spec_field_deps(self.fields@.take(i as int))[j],
            decreases self.fields@.len() - i,
        {
            match &self.fields[i].1 {
                TypeKind::Primitive(_) => {},
                TypeKind::Defined(n) => {
                    r.push(n.duplicate());
                },
            }
            proof {
                assert(self.fields@.take(i + 1).drop_last() =~= self.fields@.take(i as int));
                assert(self.fields@.take(i + 1).last() == self.fields@[i as int]);
            }
            i += 1;
        }
        proof {
            assert(self.fields@.take(self.fields@.len() as int) =~= self.fields@);
        }
        r
    }
}

} // verus!
