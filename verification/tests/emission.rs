use numerics_gen::descriptor::Family;
use numerics_gen::descriptor::Struct;
use numerics_gen::descriptor::TypeKind;
use numerics_gen::descriptor::TypeName;
use numerics_gen::emitter::operator_set;
use numerics_gen::emitter::struct_fragments;
use numerics_gen::fragment::Body;
use numerics_gen::fragment::Fragment;
use numerics_gen::fragment::MatrixShape;
use numerics_gen::fragment::scalar_fragments;
use numerics_gen::fragment::self_fragments;
use numerics_gen::operation::Operation;
use numerics_gen::operation::Ownership;
use numerics_gen::operation::RhsOperand;
use numerics_gen::text::generate_struct_extensions;

fn numerics_struct(name: &str, fields: &[&str]) -> Struct {
    Struct::from_type_name(
        TypeName {
            namespace: "Windows.Foundation.Numerics".to_string(),
            name: name.to_string(),
        },
        fields
            .iter()
            .map(|f| (f.to_string(), TypeKind::Primitive("f32".to_string())))
            .collect(),
        String::new(),
    )
}

fn count_same_type(frags: &[Fragment], op: Operation) -> usize {
    frags
        .iter()
        .filter(|f| f.op == op && matches!(f.rhs, RhsOperand::SameType(_)))
        .count()
}

fn count_scalar(frags: &[Fragment], op: Operation) -> usize {
    frags
        .iter()
        .filter(|f| f.op == op && matches!(f.rhs, RhsOperand::Scalar))
        .count()
}

#[test]
fn operator_names_and_symbols() {
    assert_eq!(Operation::Add.get_name_fn_and_symbol(), ("Add", "add", "+"));
    assert_eq!(Operation::Sub.get_name_fn_and_symbol(), ("Sub", "sub", "-"));
    assert_eq!(Operation::Div.get_name_fn_and_symbol(), ("Div", "div", "/"));
    assert_eq!(Operation::Mul.get_name_fn_and_symbol(), ("Mul", "mul", "*"));
}

#[test]
fn four_ownership_permutations_in_fixed_order() {
    assert_eq!(
        Operation::get_self_permutations(),
        vec![
            (Ownership::Value, Ownership::Value),
            (Ownership::Value, Ownership::Reference),
            (Ownership::Reference, Ownership::Value),
            (Ownership::Reference, Ownership::Reference),
        ]
    );
}

#[test]
fn classification_recognizes_the_five_shapes() {
    assert_eq!(numerics_struct("Vector2", &["x", "y"]).family, Family::Vector2);
    assert_eq!(numerics_struct("Vector3", &["x", "y", "z"]).family, Family::Vector3);
    assert_eq!(numerics_struct("Vector4", &["x", "y", "z", "w"]).family, Family::Vector4);
    assert_eq!(numerics_struct("Matrix3x2", &[]).family, Family::Matrix3x2);
    assert_eq!(numerics_struct("Matrix4x4", &[]).family, Family::Matrix4x4);
}

#[test]
fn classification_rejects_other_names_and_namespaces() {
    assert_eq!(numerics_struct("Point", &["x", "y"]).family, Family::Other);
    let elsewhere = Struct::from_type_name(
        TypeName {
            namespace: "Windows.Foundation".to_string(),
            name: "Vector2".to_string(),
        },
        Vec::new(),
        String::new(),
    );
    assert_eq!(elsewhere.family, Family::Other);
}

#[test]
fn dependencies_collects_defined_field_types() {
    let s = Struct::from_type_name(
        TypeName {
            namespace: "Windows.Foundation".to_string(),
            name: "Rect".to_string(),
        },
        vec![
            ("origin".to_string(), TypeKind::Defined(TypeName {
                namespace: "Windows.Foundation".to_string(),
                name: "Point".to_string(),
            })),
            ("width".to_string(), TypeKind::Primitive("f32".to_string())),
            ("size".to_string(), TypeKind::Defined(TypeName {
                namespace: "Windows.Foundation".to_string(),
                name: "Size".to_string(),
            })),
        ],
        String::new(),
    );
    let deps = s.dependencies();
    assert_eq!(deps.len(), 2);
    assert_eq!(deps[0].name, "Point");
    assert_eq!(deps[1].name, "Size");
}

#[test]
fn vector2_add_identical_across_all_four_permutations() {
    let s = numerics_struct("Vector2", &["x", "y"]);
    let body = "x: self.x + rhs.x, y: self.y + rhs.y";
    let expected = format!(
        "impl std::ops::Add<Vector2> for Vector2 {{ type Output = Vector2; fn add(self, rhs: Vector2) -> Vector2 {{ Vector2 {{ {body} }} }} }}\n\
         impl std::ops::Add<&Vector2> for Vector2 {{ type Output = Vector2; fn add(self, rhs: &Vector2) -> Vector2 {{ Vector2 {{ {body} }} }} }}\n\
         impl std::ops::Add<Vector2> for &Vector2 {{ type Output = Vector2; fn add(self, rhs: Vector2) -> Vector2 {{ Vector2 {{ {body} }} }} }}\n\
         impl std::ops::Add<&Vector2> for &Vector2 {{ type Output = Vector2; fn add(self, rhs: &Vector2) -> Vector2 {{ Vector2 {{ {body} }} }} }}\n"
    );
    assert_eq!(Operation::Add.to_tokens_with_self(&s), expected);
}

#[test]
fn vector3_scalar_mul_yields_two_fragments_scaling_every_field() {
    let frags = scalar_fragments(Operation::Mul);
    assert_eq!(frags.len(), 2);
    assert_eq!(frags[0].lhs, Ownership::Value);
    assert_eq!(frags[1].lhs, Ownership::Reference);
    assert!(frags.iter().all(|f| f.rhs == RhsOperand::Scalar && f.body == Body::Scalarwise));

    let s = numerics_struct("Vector3", &["x", "y", "z"]);
    let body = "x: self.x * rhs, y: self.y * rhs, z: self.z * rhs";
    let expected = format!(
        "impl std::ops::Mul<f32> for Vector3 {{ type Output = Vector3; fn mul(self, rhs: f32) -> Vector3 {{ Vector3 {{ {body} }} }} }}\n\
         impl std::ops::Mul<f32> for &Vector3 {{ type Output = Vector3; fn mul(self, rhs: f32) -> Vector3 {{ Vector3 {{ {body} }} }} }}\n"
    );
    assert_eq!(Operation::Mul.to_tokens_with_scalar(&s), expected);
}

#[test]
fn matrix3x2_product_formula_text() {
    let s = numerics_struct("Matrix3x2", &["m11", "m12", "m21", "m22", "m31", "m32"]);
    let rendered = Operation::Mul.to_tokes_with_self_custom(&s, MatrixShape::ThreeByTwo);
    let body = "m11: self.m11 * rhs.m11 + self.m12 * rhs.m21, \
                m12: self.m11 * rhs.m12 + self.m12 * rhs.m22, \
                m21: self.m21 * rhs.m11 + self.m22 * rhs.m21, \
                m22: self.m21 * rhs.m12 + self.m22 * rhs.m22, \
                m31: self.m31 * rhs.m11 + self.m32 * rhs.m21 + rhs.m31, \
                m32: self.m31 * rhs.m12 + self.m32 * rhs.m22 + rhs.m32";
    let first = format!(
        "impl std::ops::Mul<Matrix3x2> for Matrix3x2 {{ type Output = Matrix3x2; fn mul(self, rhs: Matrix3x2) -> Matrix3x2 {{ Matrix3x2 {{ {body} }} }} }}\n"
    );
    assert!(rendered.starts_with(&first));
    assert_eq!(rendered.matches("impl std::ops::Mul").count(), 4);
}

#[test]
fn matrix_mul_body_never_reads_the_descriptor_fields() {
    let conventional = numerics_struct("Matrix3x2", &["m11", "m12", "m21", "m22", "m31", "m32"]);
    let strange = numerics_struct("Matrix3x2", &["a", "b", "c", "d", "e", "f"]);
    let product_body = "m11: self.m11 * rhs.m11 + self.m12 * rhs.m21";
    for descriptor in [&conventional, &strange] {
        let rendered = Operation::Mul.to_tokes_with_self_custom(descriptor, MatrixShape::ThreeByTwo);
        assert!(rendered.contains(product_body));
        assert!(!rendered.contains("a: self.a"));
    }
    let elementwise = Operation::Add.to_tokens_with_self(&strange);
    assert!(elementwise.contains("a: self.a + rhs.a"));
}

#[test]
fn matrix4x4_formula_is_row_times_column() {
    let s = numerics_struct(
        "Matrix4x4",
        &[
            "m11", "m12", "m13", "m14", "m21", "m22", "m23", "m24", "m31", "m32", "m33", "m34",
            "m41", "m42", "m43", "m44",
        ],
    );
    let rendered = Operation::Mul.to_tokes_with_self_custom(&s, MatrixShape::FourByFour);
    assert!(rendered.contains(
        "m11: self.m11 * rhs.m11 + self.m12 * rhs.m21 + self.m13 * rhs.m31 + self.m14 * rhs.m41"
    ));
    assert!(rendered.contains(
        "m43: self.m41 * rhs.m13 + self.m42 * rhs.m23 + self.m43 * rhs.m33 + self.m44 * rhs.m43"
    ));
}

#[test]
fn operator_tables_per_family() {
    let vector_ops = vec![
        (Operation::Add, false),
        (Operation::Sub, false),
        (Operation::Div, true),
        (Operation::Mul, true),
    ];
    assert_eq!(operator_set(Family::Vector2), vector_ops);
    assert_eq!(operator_set(Family::Vector3), vector_ops);
    assert_eq!(operator_set(Family::Vector4), vector_ops);
    let matrix_ops = vec![
        (Operation::Add, false),
        (Operation::Sub, false),
        (Operation::Mul, true),
    ];
    assert_eq!(operator_set(Family::Matrix3x2), matrix_ops);
    assert_eq!(operator_set(Family::Matrix4x4), matrix_ops);
    assert_eq!(operator_set(Family::Other), Vec::new());
}

#[test]
fn fragment_counts_match_the_structural_invariant() {
    let all_ops = [Operation::Add, Operation::Sub, Operation::Div, Operation::Mul];
    for family in [Family::Vector2, Family::Vector3, Family::Vector4] {
        let frags = struct_fragments(family);
        for op in all_ops {
            assert_eq!(count_same_type(&frags, op), 4);
        }
        assert_eq!(count_scalar(&frags, Operation::Add), 0);
        assert_eq!(count_scalar(&frags, Operation::Sub), 0);
        assert_eq!(count_scalar(&frags, Operation::Div), 2);
        assert_eq!(count_scalar(&frags, Operation::Mul), 2);
    }
    for family in [Family::Matrix3x2, Family::Matrix4x4] {
        let frags = struct_fragments(family);
        assert_eq!(count_same_type(&frags, Operation::Add), 4);
        assert_eq!(count_same_type(&frags, Operation::Sub), 4);
        assert_eq!(count_same_type(&frags, Operation::Div), 0);
        assert_eq!(count_same_type(&frags, Operation::Mul), 4);
        for op in all_ops {
            assert_eq!(count_scalar(&frags, op), if op == Operation::Mul { 2 } else { 0 });
        }
    }
    for op in all_ops {
        let frags = struct_fragments(Family::Other);
        assert_eq!(count_same_type(&frags, op), 0);
        assert_eq!(count_scalar(&frags, op), 0);
    }
}

#[test]
fn other_family_emits_nothing() {
    let s = numerics_struct("Quaternion", &["x", "y", "z", "w"]);
    assert_eq!(s.family, Family::Other);
    assert_eq!(struct_fragments(s.family).len(), 0);
    assert_eq!(generate_struct_extensions(&s), "");
}

#[test]
fn vector_unit_order_and_size() {
    let frags = struct_fragments(Family::Vector2);
    assert_eq!(frags.len(), 20);
    let ops: Vec<Operation> = frags.iter().map(|f| f.op).collect();
    let mut expected_ops = Vec::new();
    expected_ops.extend([Operation::Add; 4]);
    expected_ops.extend([Operation::Sub; 4]);
    expected_ops.extend([Operation::Div; 6]);
    expected_ops.extend([Operation::Mul; 6]);
    assert_eq!(ops, expected_ops);
    assert!(frags.iter().all(|f| f.body != Body::MatrixProduct(MatrixShape::ThreeByTwo)));
}

#[test]
fn matrix_unit_order_and_size() {
    let frags = struct_fragments(Family::Matrix3x2);
    assert_eq!(frags.len(), 14);
    for i in 0..4 {
        assert_eq!(frags[i].op, Operation::Add);
        assert_eq!(frags[i].body, Body::Elementwise);
        assert_eq!(frags[4 + i].op, Operation::Sub);
        assert_eq!(frags[4 + i].body, Body::Elementwise);
        assert_eq!(frags[8 + i].op, Operation::Mul);
        assert_eq!(frags[8 + i].body, Body::MatrixProduct(MatrixShape::ThreeByTwo));
    }
    assert_eq!(frags[12].rhs, RhsOperand::Scalar);
    assert_eq!(frags[13].rhs, RhsOperand::Scalar);
    assert_eq!(frags[12].op, Operation::Mul);
    assert_eq!(frags[13].op, Operation::Mul);
}

#[test]
fn self_fragments_share_one_body_across_permutations() {
    let frags = self_fragments(Operation::Sub, Body::Elementwise);
    assert_eq!(frags.len(), 4);
    let perms: Vec<(Ownership, Ownership)> = frags
        .iter()
        .map(|f| match f.rhs {
            RhsOperand::SameType(o) => (f.lhs, o),
            RhsOperand::Scalar => panic!("same-type fragment expected"),
        })
        .collect();
    assert_eq!(
        perms,
        vec![
            (Ownership::Value, Ownership::Value),
            (Ownership::Value, Ownership::Reference),
            (Ownership::Reference, Ownership::Value),
            (Ownership::Reference, Ownership::Reference),
        ]
    );
    assert!(frags.iter().all(|f| f.body == Body::Elementwise && f.op == Operation::Sub));
}

#[test]
fn vector_unit_holds_twenty_implementations() {
    let s = numerics_struct("Vector4", &["x", "y", "z", "w"]);
    let rendered = generate_struct_extensions(&s);
    assert_eq!(rendered.matches("impl std::ops::").count(), 20);
    assert_eq!(rendered.matches("impl std::ops::Mul<f32>").count(), 2);
    assert_eq!(rendered.matches("impl std::ops::Div<f32>").count(), 2);
    assert!(rendered.contains("w: self.w - rhs.w"));
    assert!(rendered.contains("w: self.w / rhs"));
}
