use vstd::prelude::*;

verus! {

/// One selectable VPN definition: a display label and the path of its file.
pub struct VpnFile {
    pub name: String,
    pub path: String,
}

impl View for VpnFile {
    type V = (Seq<char>, Seq<char>);

    open spec fn view(&self) -> (Seq<char>, Seq<char>) {
        (self.name@, self.path@)
    }
}

/// The ordered list of entries; file order is display order.
pub struct Config {
    pub vpn_files: Vec<VpnFile>,
}

impl View for Config {
    type V = Seq<(Seq<char>, Seq<char>)>;

    open spec fn view(&self) -> Seq<(Seq<char>, Seq<char>)> {
        self.vpn_files@.map_values(|e: VpnFile| e@)
    }
}

/// The two placeholder entries written when no configuration exists yet.
pub open spec fn default_entries() -> Seq<(Seq<char>, Seq<char>)> {
    seq![
        ("Example VPN 1"@, "/path/to/example_vpn1.ovpn"@),
        ("Example VPN 2"@, "/path/to/example_vpn2.ovpn"@),
    ]
}

impl VpnFile {
    pub fn new(name: String, path: String) -> (r: VpnFile)
        ensures
            r.name == name,
            r.path == path,
    {
        VpnFile { name, path }
    }
}

impl Config {
    /// The configuration created on first run: two entries with placeholder paths.
    pub fn default_config() -> (r: Config)
        ensures
            r@ == default_entries(),
    {
        let first = VpnFile::new(
            String::from_str("Example VPN 1"),
            String::from_str("/path/to/example_vpn1.ovpn"),
        );
        let second = VpnFile::new(
            String::from_str("Example VPN 2"),
            String::from_str("/path/to/example_vpn2.ovpn"),
        );
        let vpn_files = vec![first, second];
        let r = Config { vpn_files };
        assert(r@ =~= default_entries());
        r
    }

    pub fn len(&self) -> (n: usize)
        ensures
            n == self@.len(),
    {
        self.vpn_files.len()
    }
}

} // verus!
