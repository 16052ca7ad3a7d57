use cat_database_server::catalog::{Handler, InputContract, ParamKind, ParamSpec, ToolCatalog};

#[test]
fn the_catalogue_lists_four_tools_in_order() {
    let catalog = ToolCatalog::standard();
    assert_eq!(catalog.len(), 4);
    let names: Vec<&str> = catalog.list().iter().map(|e| e.descriptor.name.as_str()).collect();
    assert_eq!(
        names,
        vec!["list_all_cats", "get_cat_by_id", "search_by_breed", "get_indoor_cats"]
    );
}

#[test]
fn the_catalogue_describes_each_tool() {
    let catalog = ToolCatalog::standard();
    let descriptions: Vec<&str> =
        catalog.list().iter().map(|e| e.descriptor.description.as_str()).collect();
    assert_eq!(
        descriptions,
        vec![
            "Get a list of all cats",
            "Get information about a specific cat by ID",
            "Search for cats by breed",
            "Get only indoor cats",
        ]
    );
}

#[test]
fn every_tool_has_its_handler_and_every_handler_one_tool() {
    let catalog = ToolCatalog::standard();
    let handlers: Vec<Handler> = catalog.list().iter().map(|e| e.handler).collect();
    assert_eq!(
        handlers,
        vec![Handler::ListAll, Handler::GetById, Handler::SearchByBreed, Handler::IndoorOnly]
    );
    for entry in catalog.list() {
        assert_eq!(entry.descriptor.input, entry.handler.contract());
        assert_eq!(entry.descriptor, entry.handler.descriptor());
    }
}

#[test]
fn lookup_finds_a_tool_by_its_name() {
    let catalog = ToolCatalog::standard();
    let entry = catalog.lookup("search_by_breed").expect("the tool is in the catalogue");
    assert_eq!(entry.handler, Handler::SearchByBreed);
    assert_eq!(entry.descriptor.name, "search_by_breed");
    assert_eq!(entry.descriptor.input.params().len(), 1);
    assert_eq!(entry.descriptor.input.params()[0].name, "breed");
    assert_eq!(entry.descriptor.input.params()[0].kind, ParamKind::Text);
    assert!(entry.descriptor.input.params()[0].required);
}

#[test]
fn lookup_of_an_unknown_name_is_none() {
    let catalog = ToolCatalog::standard();
    assert!(catalog.lookup("delete_cat").is_none());
    assert!(catalog.lookup("").is_none());
    assert!(catalog.lookup("LIST_ALL_CATS").is_none());
    assert!(catalog.lookup("list_all_cats ").is_none());
}

#[test]
fn the_contract_of_each_handler() {
    assert!(Handler::ListAll.contract().params().is_empty());
    assert!(Handler::IndoorOnly.contract().params().is_empty());
    let by_id = Handler::GetById.contract();
    assert_eq!(by_id.params().len(), 1);
    assert_eq!(by_id.params()[0].name, "id");
    assert_eq!(by_id.params()[0].kind, ParamKind::Number);
    assert_eq!(by_id.params()[0].description, "Cat ID");
    assert!(by_id.params()[0].required);
    let by_breed = Handler::SearchByBreed.contract();
    assert_eq!(by_breed.params()[0].description, "Breed to search for");
}

fn param(name: &str, kind: ParamKind) -> ParamSpec {
    ParamSpec { name: name.to_string(), kind, description: String::new(), required: false }
}

#[test]
fn a_contract_keeps_its_parameters_in_order() {
    let contract = InputContract::new(vec![
        param("b", ParamKind::Text),
        param("a", ParamKind::Number),
        param("c", ParamKind::Boolean),
    ])
    .expect("the names are distinct");
    let names: Vec<&str> = contract.params().iter().map(|p| p.name.as_str()).collect();
    assert_eq!(names, vec!["b", "a", "c"]);
}

#[test]
fn a_contract_without_parameters() {
    let contract = InputContract::new(Vec::new()).expect("no name occurs twice");
    assert!(contract.params().is_empty());
}

#[test]
fn a_contract_cannot_declare_a_name_twice() {
    assert!(InputContract::new(vec![param("a", ParamKind::Text), param("a", ParamKind::Text)])
        .is_none());
    assert!(InputContract::new(vec![
        param("a", ParamKind::Text),
        param("b", ParamKind::Number),
        param("a", ParamKind::Boolean),
    ])
    .is_none());
    assert!(InputContract::new(vec![
        param("a", ParamKind::Text),
        param("b", ParamKind::Number),
        param("c", ParamKind::Boolean),
        param("c", ParamKind::Boolean),
    ])
    .is_none());
}
