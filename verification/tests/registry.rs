use std::collections::HashSet;

use spirq_core::error::Error;
use spirq_core::func::{Function, FunctionRegistry};
use spirq_core::ids::sort_ids;
use spirq_core::interface::{
    DescriptorBinding, DescriptorVariable, InputVariable, InterfaceLocation, Locator,
    PushConstantVariable, SpirvVariable, Variable,
};
use spirq_core::sys::{str2bufstr, AccessType as CAccessType, Error as CError, PrimitiveType};
use spirq_core::ty::{DescriptorType, PointerType, ScalarType, StorageClass, Type};
use spirq_core::var::{VariableAlloc, VariableRegistry};

fn func(name: Option<&str>, vars: &[u32], callees: &[u32]) -> Function {
    let mut f = Function::default();
    f.name = name.map(|n| n.to_string());
    f.accessed_vars = vars.iter().copied().collect::<HashSet<u32>>();
    f.callees = callees.iter().copied().collect::<HashSet<u32>>();
    f
}

fn sorted(mut v: Vec<u32>) -> Vec<u32> {
    v.sort();
    v
}

#[test]
fn function_registry_set_get() {
    let mut reg = FunctionRegistry::default();
    reg.set(4, func(Some("main"), &[1], &[])).unwrap();
    assert_eq!(reg.set(4, func(None, &[], &[])), Err(Error::FunctionCollision(4)));
    assert_eq!(reg.get(4).unwrap().name.as_deref(), Some("main"));
    assert_eq!(reg.get(5).err(), Some(Error::MissingFunction(5)));
    reg.get_mut(4).unwrap().accessed_vars.insert(2);
    assert_eq!(sorted(reg.get(4).unwrap().accessed_vars.iter().copied().collect()), vec![1, 2]);
    assert_eq!(reg.get_mut(6).err(), Some(Error::MissingFunction(6)));
}

#[test]
fn function_registry_by_name() {
    let mut reg = FunctionRegistry::default();
    reg.set(1, func(Some("helper"), &[7], &[])).unwrap();
    reg.set(2, func(None, &[8], &[])).unwrap();
    let f = reg.get_by_name("helper").unwrap();
    assert_eq!(f.accessed_vars.iter().copied().collect::<Vec<_>>(), vec![7]);
    assert_eq!(reg.get_by_name("main").err(), Some(Error::MissingNamedFunction));
}

#[test]
fn functions_come_out_ordered_by_id() {
    let mut reg = FunctionRegistry::default();
    for id in [30u32, 10, 20] {
        reg.set(id, func(Some(&format!("f{}", id)), &[id], &[])).unwrap();
    }
    let names: Vec<String> = reg.collect_ordered().into_iter().map(|f| f.name.unwrap()).collect();
    assert_eq!(names, vec!["f10".to_string(), "f20".to_string(), "f30".to_string()]);
}

#[test]
fn fn_vars_follow_every_call_chain() {
    let mut reg = FunctionRegistry::default();
    reg.set(1, func(Some("main"), &[100], &[2, 3])).unwrap();
    reg.set(2, func(None, &[101], &[4])).unwrap();
    reg.set(3, func(None, &[102], &[4])).unwrap();
    reg.set(4, func(None, &[103, 104], &[])).unwrap();
    assert_eq!(sorted(reg.collect_fn_vars(1)), vec![100, 101, 102, 103, 103, 104, 104]);
    assert_eq!(sorted(reg.collect_fn_vars(4)), vec![103, 104]);
    assert!(reg.collect_fn_vars(9).is_empty());
}

#[test]
fn fn_vars_skip_missing_callees() {
    let mut reg = FunctionRegistry::default();
    reg.set(1, func(None, &[5], &[8])).unwrap();
    assert_eq!(reg.collect_fn_vars(1), vec![5]);
}

#[test]
fn function_clone_keeps_contents() {
    let f = func(Some("g"), &[1, 2], &[3]);
    let g = f.clone();
    assert_eq!(g.name, f.name);
    assert_eq!(g.accessed_vars, f.accessed_vars);
    assert_eq!(g.callees, f.callees);
}

#[test]
fn sort_ids_orders() {
    assert_eq!(sort_ids(&vec![5, 1, 9, 3]), vec![1, 3, 5, 9]);
    assert!(sort_ids(&vec![]).is_empty());
}

#[test]
fn locations_and_bindings() {
    let b = DescriptorBinding::new(1, 2);
    assert_eq!((b.set(), b.bind()), (1, 2));
    assert_eq!(b.into_inner(), (1, 2));
    assert_eq!(b.to_string(), "(set=1, bind=2)");
    let l = InterfaceLocation::new(3, 1);
    assert_eq!((l.loc(), l.comp()), (3, 1));
    assert_eq!(l.to_string(), "(loc=3, comp=1)");
    assert_eq!(InterfaceLocation::default().into_inner(), (0, 0));
}

#[test]
fn interface_variables() {
    let ty = Type::Scalar(ScalarType::float32());
    let v = Variable::Input(InputVariable { name: Some("pos".to_string()), location: InterfaceLocation::new(0, 0), ty: ty.clone() });
    assert_eq!(v.name(), Some("pos"));
    assert_eq!(v.locator(), Locator::Input(InterfaceLocation::new(0, 0)));
    assert_eq!(v.ty(), &ty);
    let d = Variable::Descriptor(DescriptorVariable {
        name: None,
        desc_bind: DescriptorBinding::new(0, 3),
        desc_ty: DescriptorType::UniformBuffer,
        ty: ty.clone(),
        bind_count: 1,
    });
    assert_eq!(d.name(), None);
    assert_eq!(d.locator(), Locator::Descriptor(DescriptorBinding::new(0, 3)));
    let p = Variable::PushConstant(PushConstantVariable { name: None, ty });
    assert_eq!(p.locator(), Locator::PushConstant);
}

#[test]
fn variable_registry() {
    let mut reg = VariableRegistry::default();
    let alloc = || VariableAlloc {
        name: Some("v".to_string()),
        store_cls: StorageClass::Input,
        ptr_ty: PointerType { pointee_ty: Box::new(Type::Scalar(ScalarType::u32())), store_cls: StorageClass::Input },
    };
    reg.set(3, alloc()).unwrap();
    assert_eq!(reg.set(3, alloc()).err(), Some(Error::VariableCollision(3)));
    assert_eq!(reg.get(3).unwrap().name.as_deref(), Some("v"));
    assert_eq!(reg.get(4).err(), Some(Error::MissingVariable(4)));
    assert_eq!(reg.iter().len(), 1);
}

#[test]
fn c_interface_codes() {
    assert_eq!(CError::Success.code(), 0);
    assert_eq!(CError::InvalidSpecialization.code(), -6);
    assert_eq!(CAccessType::ReadWrite.code(), 3);
    assert_eq!(PrimitiveType::I8.code(), 1);
    assert_eq!(PrimitiveType::F64.code(), 11);
}

#[test]
fn name_buffer_truncates_and_terminates() {
    let mut buf = [7i8; 256];
    str2bufstr(&mut buf, b"main");
    assert_eq!(&buf[..5], &[b'm' as i8, b'a' as i8, b'i' as i8, b'n' as i8, 0]);
    assert_eq!(buf[5], 7);
    let long = vec![b'x'; 300];
    str2bufstr(&mut buf, &long);
    assert!(buf[..255].iter().all(|c| *c == b'x' as i8));
    assert_eq!(buf[255], 0);
}
