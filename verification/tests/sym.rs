use dora::sym::{NodeId, Param, Sym, SymFunctionType, SymLocalVarType, SymTable};
use dora::ty::BuiltinType;
use dora::vm::{ClassId, FctId, Name, TraitId};

#[test]
fn test_insert_and_find_again() {
    let mut table = SymTable::new();

    assert!(table.insert(Name(1), Sym::SymDummy(1)).is_ok());
    assert!(table.find(Name(1)).is_some());
    assert!(table.find(Name(2)).is_none());
}

#[test]
fn test_insert_twice_into_same_level() {
    let mut table = SymTable::new();

    assert!(table.insert(Name(1), Sym::SymDummy(1)).is_ok());
    assert!(table.insert(Name(1), Sym::SymDummy(2)).is_err());
}

#[test]
fn insert_keeps_the_first_symbol() {
    let mut table = SymTable::new();
    assert_eq!(table.insert(Name(7), Sym::SymDummy(1)), Ok(()));
    assert_eq!(table.insert(Name(7), Sym::SymDummy(2)), Err(&Sym::SymDummy(1)));
    assert_eq!(table.find(Name(7)), Some(&Sym::SymDummy(1)));
}

#[test]
fn symbols_are_found_by_kind() {
    let mut table = SymTable::new();
    assert!(table.insert(Name(0), Sym::SymClass(ClassId(4))).is_ok());
    assert!(table.insert(Name(1), Sym::SymTrait(TraitId(5))).is_ok());
    assert!(table.insert(Name(2), Sym::SymFct(FctId(6))).is_ok());
    assert!(table.insert(Name(3), Sym::SymType(BuiltinType::Int)).is_ok());
    assert_eq!(table.get_class(Name(0)), Some(ClassId(4)));
    assert_eq!(table.get_class(Name(1)), None);
    assert_eq!(table.get_class(Name(9)), None);
    assert_eq!(table.get_trait(Name(1)), Some(TraitId(5)));
    assert_eq!(table.get_trait(Name(2)), None);
    assert_eq!(table.get_fct(Name(2)), Some(FctId(6)));
    assert_eq!(table.get_fct(Name(3)), None);
}

fn function(name: usize) -> SymFunctionType {
    SymFunctionType {
        name: Name(name),
        return_type: BuiltinType::Unit,
        params: vec![Param { name: Name(name + 100), data_type: BuiltinType::Int }],
        body: NodeId(name),
    }
}

#[test]
fn functions_mut_lists_the_functions_only() {
    let mut table = SymTable::new();
    assert!(table.insert(Name(1), Sym::SymFunction(function(1))).is_ok());
    assert!(table.insert(Name(2), Sym::SymDummy(0)).is_ok());
    assert!(table.insert(Name(3), Sym::SymFunction(function(3))).is_ok());
    let local = SymLocalVarType { name: Name(4), data_type: BuiltinType::Bool, expr: None };
    assert!(table.insert(Name(4), Sym::SymLocalVar(local)).is_ok());

    let mut names: Vec<usize> = table.functions_mut().iter().map(|f| f.name.0).collect();
    names.sort();
    assert_eq!(names, vec![1, 3]);

    let mut empty = SymTable::new();
    assert!(empty.functions_mut().is_empty());
}
