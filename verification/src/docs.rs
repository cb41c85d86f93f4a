//! The RPC modules that are documented, and the file each document goes to.

use serde_json::Value;
use vstd::prelude::*;
use vstd::string::*;

verus! {

/// `serde_json::Value`, a JSON document, made known to the verifier as a type
/// without contents.  A document is carried from the generator to the caller
/// untouched: nothing in this crate looks inside one.
#[verifier::external_type_specification]
#[verifier::external_body]
pub struct ExValue(serde_json::Value);

/// An RPC module that has a generated document.
#[derive(Clone, Copy, PartialEq, Eq, Structural, Debug)]
pub enum RpcModule {
    Alert,
    Net,
    Subscription,
    Debug,
    Chain,
    Miner,
    Pool,
    Stats,
    IntegrationTest,
    Indexer,
    Experiment,
}

/// Every documented module, in the order in which the documents are produced.
pub open spec fn modules() -> Seq<RpcModule> {
    seq![
        RpcModule::Alert,
        RpcModule::Net,
        RpcModule::Subscription,
        RpcModule::Debug,
        RpcModule::Chain,
        RpcModule::Miner,
        RpcModule::Pool,
        RpcModule::Stats,
        RpcModule::IntegrationTest,
        RpcModule::Indexer,
        RpcModule::Experiment,
    ]
}

impl RpcModule {
    /// The module's name, as a sequence of characters.
    pub open spec fn spec_name(self) -> Seq<char> {
        match self {
            RpcModule::Alert => "alert"@,
            RpcModule::Net => "net"@,
            RpcModule::Subscription => "subscription"@,
            RpcModule::Debug => "debug"@,
            RpcModule::Chain => "chain"@,
            RpcModule::Miner => "miner"@,
            RpcModule::Pool => "pool"@,
            RpcModule::Stats => "stats"@,
            RpcModule::IntegrationTest => "integration-test"@,
            RpcModule::Indexer => "indexer"@,
            RpcModule::Experiment => "experiment"@,
        }
    }

    /// The name of the file that holds the module's document: the module's
    /// name followed by `.json`.
    pub open spec fn spec_file_name(self) -> Seq<char> {
        self.spec_name() + ".json"@
    }

    /// The module's name.
    pub fn name(self) -> (name: &'static str)
        ensures
            name@ == self.spec_name(),
    {
        match self {
            RpcModule::Alert => "alert",
            RpcModule::Net => "net",
            RpcModule::Subscription => "subscription",
            RpcModule::Debug => "debug",
            RpcModule::Chain => "chain",
            RpcModule::Miner => "miner",
            RpcModule::Pool => "pool",
            RpcModule::Stats => "stats",
            RpcModule::IntegrationTest => "integration-test",
            RpcModule::Indexer => "indexer",
            RpcModule::Experiment => "experiment",
        }
    }

    /// The name of the file that holds the module's document.
    pub fn file_name(self) -> (file: String)
        ensures
            file@ == self.spec_file_name(),
    {
        String::from_str(self.name()).concat(".json")
    }
}

/// The documented modules, in order.
pub fn rpc_modules() -> (list: Vec<RpcModule>)
    ensures
        list@ == modules(),
{
    vec![
        RpcModule::Alert,
        RpcModule::Net,
        RpcModule::Subscription,
        RpcModule::Debug,
        RpcModule::Chain,
        RpcModule::Miner,
        RpcModule::Pool,
        RpcModule::Stats,
        RpcModule::IntegrationTest,
        RpcModule::Indexer,
        RpcModule::Experiment,
    ]
}

/// Collects one document per module: asks `generate` for each module of
/// [`modules`] in turn and pairs what it returns with the module's file name.
///
/// The result has one entry for each of the eleven modules, in their order:
/// the name of the module's file, and a document that `generate` gave for
/// that module.
pub fn all_rpc_docs<F: Fn(RpcModule) -> Value>(generate: F) -> (docs: Vec<(String, Value)>)
    requires
        forall|m: RpcModule| call_requires(generate, (m,)),
    ensures
        docs@.len() == 11,
        docs@.len() == modules().len(),
        forall|i: int|
            0 <= i < docs@.len() ==> (#[trigger] docs@[i]).0@ == modules()[i].spec_file_name(),
        forall|i: int|
            0 <= i < docs@.len() ==> call_ensures(
                generate,
                (modules()[i],),
                (#[trigger] docs@[i]).1,
            ),
{
    let list = rpc_modules();
    let mut docs: Vec<(String, Value)> = Vec::new();
    let mut i: usize = 0;
    while i < list.len()
        invariant
            i <= list.len(),
            list@ == modules(),
            docs@.len() == i,
            forall|m: RpcModule| call_requires(generate, (m,)),
            forall|j: int|
                0 <= j < i ==> (#[trigger] docs@[j]).0@ == modules()[j].spec_file_name(),
            forall|j: int|
                0 <= j < i ==> call_ensures(generate, (modules()[j],), (#[trigger] docs@[j]).1),
        decreases list.len() - i,
    {
        let module = list[i];
        let doc = generate(module);
        docs.push((module.file_name(), doc));
        i += 1;
    }
    docs
}

} // verus!
