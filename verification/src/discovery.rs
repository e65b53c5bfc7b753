use vstd::prelude::*;

use std::collections::HashMap;

verus! {

/// One discovered tool provider: its name, and the optional launch command,
/// launch arguments and environment-variable mapping a launcher would use.
/// How a provider is reached is a transport concern outside this core; the
/// core only reads the names.
pub struct MCPServer {
    pub name: String,
    pub command: Option<String>,
    pub args: Option<Vec<String>>,
    pub env: Option<HashMap<String, String>>,
}

/// A set of discovered providers. The source document keys each provider by
/// its name; here each entry carries its name itself, and a well-formed
/// configuration holds no two entries under the same name.
pub struct MCPConfig {
    pub servers: Vec<MCPServer>,
}

impl MCPConfig {
    /// Whether the configuration names each provider once.
    pub open spec fn wf(self) -> bool {
        forall|i: int, j: int|
            0 <= i < j < self.servers@.len() ==> (#[trigger] self.servers@[i]).name@ != (
            #[trigger] self.servers@[j]).name@
    }
}

/// The names of the configured providers, in configuration order.
pub fn list_servers(config: &MCPConfig) -> (names: Vec<String>)
    ensures
        names@.len() == config.servers@.len(),
        forall|i: int| 0 <= i < names@.len() ==> (#[trigger] names@[i])@
            == config.servers@[i].name@,
{
    let n = config.servers.len();
    let mut names: Vec<String> = Vec::new();
    let mut i: usize = 0;
    while i < n
        invariant
            n == config.servers@.len(),
            i <= n,
            names@.len() == i as int,
            forall|j: int| 0 <= j < i as int ==> (#[trigger] names@[j])@
                == config.servers@[j].name@,
        decreases n - i,
    {
        names.push(config.servers[i].name.clone());
        i = i + 1;
    }
    names
}

} // verus!
