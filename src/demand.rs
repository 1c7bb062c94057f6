//! The demand that the requestor publishes on the market: who it is, what
//! workload it runs, until when, and which providers qualify.

use vstd::prelude::*;

verus! {

/// The workload image: its content hash and where to fetch it.
pub const TASK_PACKAGE: &'static str =
    "hash:sha3:b491514aa88dc7f79ed461358cf9ea9c63775da591312f2f1a1dc43d:http://yacn.dev.golem.network:8000/ya-zksync-prover-0.2.3";

/// The name under which the requestor node appears.
pub const NODE_NAME: &'static str = "zk-sync-node";

/// The runtime that executes the workload image.
pub const RUNTIME_NAME: &'static str = "vm";

/// The value of a demand property.
pub enum PropertyValue {
    Text(String),
    Integer(i64),
}

/// One property of a demand.
pub struct Property {
    pub key: String,
    pub value: PropertyValue,
}

/// A published capability request.
pub struct Demand {
    pub properties: Vec<Property>,
    /// A filter over provider properties, in the market's constraint syntax.
    pub constraints: String,
    /// Expiration, in milliseconds since the Unix epoch.
    pub deadline_ms: i64,
}

/// The constraints of the demand: a virtual-machine runtime on `subnet`,
/// more than 16 GiB of memory and more than 1 GiB of storage.
pub open spec fn constraints_text(subnet: Seq<char>) -> Seq<char> {
    "(&\n\t(golem.runtime.name="@ + RUNTIME_NAME@ + ")\n\t(golem.node.debug.subnet="@ + subnet
        + ")\n\t(golem.inf.mem.gib>16)\n\t(golem.inf.storage.gib>1)\n)"@
}

pub open spec fn has_text(p: Property, key: Seq<char>, value: Seq<char>) -> bool {
    &&& p.key@ == key
    &&& p.value matches PropertyValue::Text(t)
    &&& p.value->Text_0@ == value
}

/// The demand for one prover node on `subnet`, expiring at `deadline_ms`.
pub fn create_demand(deadline_ms: i64, subnet: &str) -> (r: Demand)
    ensures
        r.deadline_ms == deadline_ms,
        r.constraints@ == constraints_text(subnet@),
        r.properties@.len() == 4,
        has_text(r.properties@[0], "golem.node.id.name"@, NODE_NAME@),
        has_text(r.properties@[1], "golem.node.debug.subnet"@, subnet@),
        has_text(r.properties@[2], "golem.srv.comp.task_package"@, TASK_PACKAGE@),
        r.properties@[3].key@ == "golem.srv.comp.expiration"@,
        r.properties@[3].value == PropertyValue::Integer(deadline_ms),
{
    let properties = vec![
        Property {
            key: String::from_str("golem.node.id.name"),
            value: PropertyValue::Text(String::from_str(NODE_NAME)),
        },
        Property {
            key: String::from_str("golem.node.debug.subnet"),
            value: PropertyValue::Text(String::from_str(subnet)),
        },
        Property {
            key: String::from_str("golem.srv.comp.task_package"),
            value: PropertyValue::Text(String::from_str(TASK_PACKAGE)),
        },
        Property {
            key: String::from_str("golem.srv.comp.expiration"),
            value: PropertyValue::Integer(deadline_ms),
        },
    ];
    let mut constraints = String::from_str("(&\n\t(golem.runtime.name=");
    constraints.append(RUNTIME_NAME);
    constraints.append(")\n\t(golem.node.debug.subnet=");
    constraints.append(subnet);
    constraints.append(")\n\t(golem.inf.mem.gib>16)\n\t(golem.inf.storage.gib>1)\n)");
    Demand { properties, constraints, deadline_ms }
}

} // verus!
