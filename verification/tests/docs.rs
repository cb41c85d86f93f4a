use rpc_gen::docs::{all_rpc_docs, rpc_modules, RpcModule};
use serde_json::Value;

const FILE_NAMES: [&str; 11] = [
    "alert.json",
    "net.json",
    "subscription.json",
    "debug.json",
    "chain.json",
    "miner.json",
    "pool.json",
    "stats.json",
    "integration-test.json",
    "indexer.json",
    "experiment.json",
];

#[test]
fn there_are_eleven_documents_in_declared_order() {
    let docs = all_rpc_docs(|_| Value::Null);
    assert_eq!(docs.len(), 11);
    let names: Vec<&str> = docs.iter().map(|(name, _)| name.as_str()).collect();
    assert_eq!(names, FILE_NAMES);
}

#[test]
fn each_document_comes_from_its_module() {
    let docs = all_rpc_docs(|module| Value::String(module.name().to_string()));
    let modules = rpc_modules();
    assert_eq!(docs.len(), modules.len());
    for (i, (file, doc)) in docs.iter().enumerate() {
        assert_eq!(*file, format!("{}.json", modules[i].name()));
        assert_eq!(*doc, Value::String(modules[i].name().to_string()));
    }
    assert_eq!(docs[8].0, "integration-test.json");
    assert_eq!(docs[8].1, Value::String("integration-test".to_string()));
}

#[test]
fn documents_are_handed_on_unchanged() {
    let docs = all_rpc_docs(|module| {
        let mut object = serde_json::Map::new();
        object.insert("openrpc".to_string(), Value::String("1.2.6".to_string()));
        object.insert("title".to_string(), Value::String(module.name().to_string()));
        object.insert("methods".to_string(), Value::Array(vec![Value::Bool(true), Value::Null]));
        Value::Object(object)
    });
    assert_eq!(docs[0].1["openrpc"], Value::String("1.2.6".to_string()));
    assert_eq!(docs[0].1["title"], Value::String("alert".to_string()));
    assert_eq!(docs[10].1["title"], Value::String("experiment".to_string()));
    assert_eq!(docs[4].1["methods"], Value::Array(vec![Value::Bool(true), Value::Null]));
}

#[test]
fn each_module_is_asked_once() {
    let asked = std::cell::RefCell::new(Vec::new());
    let docs = all_rpc_docs(|module| {
        asked.borrow_mut().push(module);
        Value::Null
    });
    assert_eq!(docs.len(), 11);
    assert_eq!(*asked.borrow(), rpc_modules());
}

#[test]
fn modules_are_listed_in_declared_order() {
    assert_eq!(
        rpc_modules(),
        vec![
            RpcModule::Alert,
            RpcModule::Net,
            RpcModule::Subscription,
            RpcModule::Debug,
            RpcModule::Chain,
            RpcModule::Miner,
            RpcModule::Pool,
            RpcModule::Stats,
            RpcModule::IntegrationTest,
            RpcModule::Indexer,
            RpcModule::Experiment,
        ]
    );
}

#[test]
fn file_name_is_the_module_name_with_json() {
    assert_eq!(RpcModule::Alert.name(), "alert");
    assert_eq!(RpcModule::Alert.file_name(), "alert.json");
    assert_eq!(RpcModule::IntegrationTest.name(), "integration-test");
    assert_eq!(RpcModule::IntegrationTest.file_name(), "integration-test.json");
    for (module, file) in rpc_modules().into_iter().zip(FILE_NAMES) {
        assert_eq!(module.file_name(), file);
    }
}
