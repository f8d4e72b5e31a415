//! The script that a context starts with.
//!
//! The script loads the target module, waits for the module's own
//! initialisation and then announces readiness with one message. From then on
//! it answers each request: it looks the task up among the functions that the
//! module exports, calls it with the payload and posts back what it returns.
//! A task that the module does not export is reported on the console of the
//! context, and no response is posted.
//!
//! The script has one point of substitution: the address of the module, which
//! is the origin of the host followed by the module's path.

use vstd::prelude::*;
use vstd::string::*;

verus! {

/// The script up to the address of the module.
pub const BOOTSTRAP_HEAD: &'static str = "\n(async () => {\n    const wasm = await import('";

/// The script after the address of the module.
pub const BOOTSTRAP_TAIL: &'static str = "');\n    await wasm.default();\n    postMessage('ready');\n    addEventListener('message', async event => {\n        const {task_name, message} = JSON.parse(event.data);\n        \n        const task = wasm[task_name];\n        if (!task) return console.error(`[Web Worker] Task '${task}' not found, is it exported with #[wasm_bindgen]?`);\n\n        const result = await task(message);\n        postMessage(result);\n    });\n})();\n";

/// The text of the script for the module at the path `rel` of `origin`.
pub open spec fn glob_text(origin: Seq<char>, rel: Seq<char>) -> Seq<char> {
    BOOTSTRAP_HEAD@ + origin + rel + BOOTSTRAP_TAIL@
}

/// Writes the script for the module at the path `rel` of `origin`.
///
/// The host turns the text into an object that a context can be spawned
/// from.
pub fn glob(origin: &str, rel: &str) -> (script: String)
    ensures
        script@ == glob_text(origin@, rel@),
{
    let mut script = String::from_str(BOOTSTRAP_HEAD);
    script.append(origin);
    script.append(rel);
    script.append(BOOTSTRAP_TAIL);
    script
}

} // verus!
