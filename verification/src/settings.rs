//! The application manifest and the instance settings with which the host
//! prepares its component: plain values that the host hands to the runtime.
use vstd::prelude::*;

verus! {

/// The characters of each string, in order.
pub open spec fn string_views(v: Seq<String>) -> Seq<Seq<char>> {
    v.map_values(|s: String| s@)
}

/// The manifest of the single-component application that the host loads.
#[derive(Debug, Clone)]
pub struct AppManifest {
    /// The manifest format version.
    pub manifest_version: u32,
    /// The application's name, also its id once loaded.
    pub app_name: String,
    /// The type of the one trigger the application declares.
    pub trigger_type: String,
    /// The id of the application's one component.
    pub component_id: String,
    /// Where the component's code is said to come from.
    pub component_source: String,
    /// The destinations that the component may reach; none when empty.
    pub allowed_outbound_hosts: Vec<String>,
}

/// The settings for one component instance.
#[derive(Debug, Clone)]
pub struct InstanceSettings {
    /// The most memory, in bytes, that the instance's store may grow to.
    pub max_memory_size: usize,
    /// The command-line arguments that the guest sees.
    pub guest_args: Vec<String>,
    /// Whether the guest's standard output and error go to the host's.
    pub pipe_stdio: bool,
}

/// A vector holding the given strings, in order.
fn strings(items: &[&str]) -> (v: Vec<String>)
    ensures
        string_views(v@) == items@.map_values(|s: &str| s@),
{
    let mut v: Vec<String> = Vec::new();
    let n = items.len();
    for i in 0..n
        invariant
            n == items@.len(),
            v@.len() == i,
            forall|j: int| 0 <= j < i ==> #[trigger] v@[j]@ == items@[j]@,
    {
        v.push(String::from_str(items[i]));
    }
    assert(string_views(v@) =~= items@.map_values(|s: &str| s@));
    v
}

impl AppManifest {
    /// Holds the fields common to both manifests, apart from the allowed hosts.
    pub open spec fn is_test_app(&self) -> bool {
        &&& self.manifest_version == 2
        &&& self.app_name@ == "test-app"@
        &&& self.trigger_type@ == "test-trigger"@
        &&& self.component_id@ == "empty"@
        &&& self.component_source@ == "does-not-exist.wasm"@
    }

    /// Every manifest the host builds is a version 2 manifest of the application
    /// `test-app`, with one `test-trigger` trigger and the component `empty`
    /// whose source is `does-not-exist.wasm`.
    pub proof fn lemma_test_app_fields(m: AppManifest)
        requires
            m.is_test_app(),
        ensures
            m.manifest_version == 2,
            m.app_name@ == "test-app"@,
            m.trigger_type@ == "test-trigger"@,
            m.component_id@ == "empty"@,
            m.component_source@ == "does-not-exist.wasm"@,
    {
    }

    fn test_app(allowed_outbound_hosts: Vec<String>) -> (m: Self)
        ensures
            m.is_test_app(),
            m.manifest_version == 2,
            m.app_name@ == "test-app"@,
            m.trigger_type@ == "test-trigger"@,
            m.component_id@ == "empty"@,
            m.component_source@ == "does-not-exist.wasm"@,
            m.allowed_outbound_hosts == allowed_outbound_hosts,
    {
        AppManifest {
            manifest_version: 2,
            app_name: String::from_str("test-app"),
            trigger_type: String::from_str("test-trigger"),
            component_id: String::from_str("empty"),
            component_source: String::from_str("does-not-exist.wasm"),
            allowed_outbound_hosts,
        }
    }

    /// The manifest of the HTTP host: its component may call its own application
    /// over HTTP and HTTPS, and `https://google.com`.
    pub fn http_host() -> (m: Self)
        ensures
            m.is_test_app(),
            m.manifest_version == 2,
            m.app_name@ == "test-app"@,
            m.trigger_type@ == "test-trigger"@,
            m.component_id@ == "empty"@,
            m.component_source@ == "does-not-exist.wasm"@,
            string_views(m.allowed_outbound_hosts@)
                == seq!["http://self"@, "https://self"@, "https://google.com"@],
    {
        let hosts = strings(&["http://self", "https://self", "https://google.com"]);
        proof {
            let items = seq!["http://self", "https://self", "https://google.com"];
            assert(items.map_values(|s: &str| s@) =~= seq!["http://self"@, "https://self"@, "https://google.com"@]);
        }
        Self::test_app(hosts)
    }

    /// The manifest of the factors probe: its component may reach no destination.
    pub fn factors_probe() -> (m: Self)
        ensures
            m.is_test_app(),
            m.manifest_version == 2,
            m.app_name@ == "test-app"@,
            m.trigger_type@ == "test-trigger"@,
            m.component_id@ == "empty"@,
            m.component_source@ == "does-not-exist.wasm"@,
            m.allowed_outbound_hosts@.len() == 0,
    {
        Self::test_app(Vec::new())
    }
}

impl InstanceSettings {
    /// The settings of the HTTP host: 100 MB of memory, the argument `foo`, and
    /// the guest's output on the host's terminal.
    pub fn http_host() -> (s: Self)
        ensures
            s.max_memory_size == 100_000_000,
            string_views(s.guest_args@) == seq!["foo"@],
            s.pipe_stdio,
    {
        let mut guest_args: Vec<String> = Vec::new();
        guest_args.push(String::from_str("foo"));
        assert(string_views(guest_args@) =~= seq!["foo"@]);
        InstanceSettings { max_memory_size: 100_000_000, guest_args, pipe_stdio: true }
    }

    /// The settings of the factors probe: 1 MB of memory, the argument `foo`,
    /// and the guest's output left alone.
    pub fn factors_probe() -> (s: Self)
        ensures
            s.max_memory_size == 1_000_000,
            string_views(s.guest_args@) == seq!["foo"@],
            !s.pipe_stdio,
    {
        let mut guest_args: Vec<String> = Vec::new();
        guest_args.push(String::from_str("foo"));
        assert(string_views(guest_args@) =~= seq!["foo"@]);
        InstanceSettings { max_memory_size: 1_000_000, guest_args, pipe_stdio: false }
    }
}

} // verus!
