use move_model::names::GetNameString;
use move_model::address::Address;
use move_model::enums::{EnumData, StructOrEnumEnv, VariantData};
use move_model::env::{GlobalEnv, ModuleData};
use move_model::loc::{FileId, Loc, Span};
use move_model::model::{DatatypeId, FieldId, ModuleId, VariantId};
use move_model::structs::{EnclosingEnv, FieldData, StructData};
use move_model::symbol::SymbolPool;
use move_model::ty::{PrimitiveType, Type};

fn loc(file: u32, start: u32, end: u32) -> Loc {
    Loc::new(FileId::new(file), Span::new(start, end))
}

/// Module `shapes` at address 0x7 with the enum `Shape` (variants, out of tag order,
/// `Rect { w, h }` with tag 1, `Circle { r }` with tag 0, `Empty` with tag 2), the enum
/// `Color` with the `key` ability and the struct `Point`; module `other` with the enum
/// `Point`.
fn enum_env() -> GlobalEnv {
    let mut pool = SymbolPool::new();
    let shapes = pool.make("shapes");
    let other = pool.make("other");
    let modules = vec![
        ModuleData {
            id: ModuleId::new(0),
            name: shapes,
            address: Address::from_u16(7),
            full_name: "0x7::shapes".to_string(),
            is_script: false,
            used_modules: vec![],
            friend_modules: vec![],
            loc: loc(0, 0, 1000),
        },
        ModuleData {
            id: ModuleId::new(1),
            name: other,
            address: Address::from_u16(8),
            full_name: "0x8::other".to_string(),
            is_script: false,
            used_modules: vec![],
            friend_modules: vec![],
            loc: loc(1, 0, 1000),
        },
    ];
    let u64_ty = Type::Primitive(PrimitiveType::U64);
    let point = pool.make("Point");
    let structs = vec![StructData {
        module_id: ModuleId::new(0),
        name: point,
        loc: loc(0, 600, 700),
        is_native: false,
        has_key: false,
        fields: vec![],
    }];
    let enums = vec![
        EnumData {
            module_id: ModuleId::new(0),
            name: pool.make("Shape"),
            loc: loc(0, 10, 300),
            has_key: false,
            variants: vec![
                VariantData {
                    name: pool.make("Rect"),
                    loc: loc(0, 20, 40),
                    tag: 1,
                    fields: vec![
                        FieldData { name: pool.make("h"), offset: 1, ty: u64_ty.clone() },
                        FieldData {
                            name: pool.make("w"),
                            offset: 0,
                            ty: Type::Primitive(PrimitiveType::U8),
                        },
                    ],
                },
                VariantData {
                    name: pool.make("Circle"),
                    loc: loc(0, 50, 70),
                    tag: 0,
                    fields: vec![FieldData { name: pool.make("r"), offset: 0, ty: u64_ty.clone() }],
                },
                VariantData { name: pool.make("Empty"), loc: loc(0, 80, 90), tag: 2, fields: vec![] },
            ],
        },
        EnumData {
            module_id: ModuleId::new(0),
            name: pool.make("Color"),
            loc: loc(0, 400, 500),
            has_key: true,
            variants: vec![],
        },
        EnumData {
            module_id: ModuleId::new(1),
            name: point,
            loc: loc(1, 10, 20),
            has_key: false,
            variants: vec![],
        },
    ];
    let mut env = GlobalEnv::new();
    env.symbol_pool = pool;
    env.module_data = modules;
    env.struct_data = structs;
    env.enum_data = enums;
    env
}

#[test]
fn enums_of_modules() {
    let env = enum_env();
    let shapes = env.get_module(ModuleId::new(0));
    assert_eq!(shapes.get_enum_count(), 2);
    let names: Vec<String> = shapes.get_enums().iter().map(|e| e.get_full_name_str()).collect();
    assert_eq!(names, vec!["shapes::Shape".to_string(), "shapes::Color".to_string()]);
    assert_eq!(env.get_module(ModuleId::new(1)).get_enum_count(), 1);
    let color = env.symbol_pool.find("Color").unwrap();
    let c = shapes.find_enum(color).unwrap();
    assert!(c.has_memory());
    assert_eq!(c.get_variant_count(), 0);
    assert_eq!(c.get_full_name_with_address(), "0x7::shapes::Color");
    assert_eq!(c.get_loc(), loc(0, 400, 500));
    assert!(env.get_module(ModuleId::new(1)).find_enum(color).is_none());
    let s = shapes.get_enum(DatatypeId::new(env.symbol_pool.find("Shape").unwrap()));
    assert!(!s.has_memory());
    let q = s.get_qualified_id();
    assert_eq!(q.module_id, ModuleId::new(0));
    assert_eq!(q.id, s.get_id());
    assert_eq!(env.get_enum_qid(q).get_name(), s.get_name());
}

#[test]
fn struct_or_enum() {
    let env = enum_env();
    let point = DatatypeId::new(env.symbol_pool.find("Point").unwrap());
    let shapes = env.get_module(ModuleId::new(0));
    assert!(matches!(shapes.get_struct_or_enum(point), StructOrEnumEnv::Struct(_)));
    let other = env.get_module(ModuleId::new(1));
    match other.get_struct_or_enum(point) {
        StructOrEnumEnv::Enum(e) => assert_eq!(e.get_full_name_str(), "other::Point"),
        StructOrEnumEnv::Struct(_) => panic!("`other` declares no struct"),
    }
    let shape = DatatypeId::new(env.symbol_pool.find("Shape").unwrap());
    let q = shapes.get_enum(shape).get_qualified_id();
    match env.get_struct_or_enum_qid(q) {
        StructOrEnumEnv::Enum(e) => assert_eq!(e.get_variant_count(), 3),
        StructOrEnumEnv::Struct(_) => panic!("`Shape` is an enum"),
    }
}

#[test]
fn variants_of_enums() {
    let env = enum_env();
    let shapes = env.get_module(ModuleId::new(0));
    let s = shapes.get_enum(DatatypeId::new(env.symbol_pool.find("Shape").unwrap()));
    let variants = s.get_variants();
    let names: Vec<String> = variants.iter().map(|v| v.get_full_name_str()).collect();
    assert_eq!(
        names,
        vec!["shapes::Shape::Circle".to_string(), "shapes::Shape::Rect".to_string(), "shapes::Shape::Empty".to_string()]
    );
    let tags: Vec<usize> = variants.iter().map(|v| v.get_tag()).collect();
    assert_eq!(tags, vec![0, 1, 2]);
    let rect = env.symbol_pool.find("Rect").unwrap();
    let r = s.find_variant(rect).unwrap();
    assert_eq!(r.get_tag(), 1);
    assert_eq!(r.get_id(), VariantId::new(rect));
    assert_eq!(r.get_loc(), loc(0, 20, 40));
    assert_eq!(r.get_full_name_with_address(), "shapes::Shape::Rect");
    assert_eq!(s.get_variant(VariantId::new(rect)).get_name(), rect);
    assert_eq!(s.get_variant_by_tag(2).get_full_name_str(), "shapes::Shape::Empty");
    assert!(s.find_variant(env.symbol_pool.find("h").unwrap()).is_none());
    assert_eq!(r.enum_env().get_name(), s.get_name());
}

#[test]
fn fields_of_variants() {
    let env = enum_env();
    let shapes = env.get_module(ModuleId::new(0));
    let s = shapes.get_enum(DatatypeId::new(env.symbol_pool.find("Shape").unwrap()));
    let r = s.get_variant_by_tag(1);
    assert_eq!(r.get_field_count(), 2);
    let names: Vec<String> =
        r.get_fields().iter().map(|f| env.symbol_pool.string(f.get_name())).collect();
    assert_eq!(names, vec!["w".to_string(), "h".to_string()]);
    let h = env.symbol_pool.find("h").unwrap();
    assert_eq!(r.find_field(h).unwrap().get_offset(), 1);
    assert_eq!(r.get_field(FieldId::new(h)).get_type(), Type::Primitive(PrimitiveType::U64));
    assert!(r.find_field(env.symbol_pool.find("r").unwrap()).is_none());
    assert_eq!(r.get_field_by_offset(0).get_type(), Type::Primitive(PrimitiveType::U8));
    match r.get_field_by_offset(1).parent_env() {
        EnclosingEnv::Variant(v) => assert_eq!(v.get_tag(), 1),
        EnclosingEnv::Struct(_) => panic!("the field belongs to a variant"),
    }
}

#[test]
fn all_fields_of_enums() {
    let env = enum_env();
    let shapes = env.get_module(ModuleId::new(0));
    let s = shapes.get_enum(DatatypeId::new(env.symbol_pool.find("Shape").unwrap()));
    let all: Vec<(usize, String)> = s
        .get_all_fields()
        .iter()
        .map(|f| {
            let tag = match f.parent_env() {
                EnclosingEnv::Variant(v) => v.get_tag(),
                EnclosingEnv::Struct(_) => usize::MAX,
            };
            (tag, env.symbol_pool.string(f.get_name()))
        })
        .collect();
    assert_eq!(all, vec![(0, "r".to_string()), (1, "w".to_string()), (1, "h".to_string())]);
    let color = shapes.find_enum(env.symbol_pool.find("Color").unwrap()).unwrap();
    assert!(color.get_all_fields().is_empty());
}

#[test]
fn datatype_names_for_display() {
    let env = enum_env();
    let shapes = env.get_module(ModuleId::new(0));
    let shape = shapes.get_enum(DatatypeId::new(env.symbol_pool.find("Shape").unwrap()));
    assert_eq!(shape.get_qualified_id().get_name_for_display(&env), "shapes::Shape");
    let point = DatatypeId::new(env.symbol_pool.find("Point").unwrap());
    assert_eq!(ModuleId::new(0).qualified(point).get_name_for_display(&env), "shapes::Point");
    assert_eq!(ModuleId::new(1).qualified(point).get_name_for_display(&env), "other::Point");
}
