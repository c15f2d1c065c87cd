//! The server's configuration: where it serves from, its port and title,
//! the announcement, the data nodes clients may use and the banners they show.
use crate::text::{decimal_text, pad_right, push_decimal, push_padded};
use vstd::prelude::*;

verus! {

/// The log level used where the configuration names none.
pub const DEFAULT_LOG_LEVEL: &'static str = "TRACE";

/// The port used where the configuration names none.
pub const DEFAULT_PORT: u16 = 8080;

/// The network address of a data node.
#[derive(Debug)]
pub struct Address {
    pub protocol: String,
    pub host: String,
    pub port: u16,
}

/// An address as plain values.
pub struct AddressView {
    pub protocol: Seq<char>,
    pub host: Seq<char>,
    pub port: u16,
}

impl View for Address {
    type V = AddressView;

    open spec fn view(&self) -> AddressView {
        AddressView { protocol: self.protocol@, host: self.host@, port: self.port }
    }
}

/// The text of an address: `protocol://host:port`, the port in decimal.
pub open spec fn address_text(a: AddressView) -> Seq<char> {
    a.protocol + "://"@ + a.host + ":"@ + decimal_text(a.port as nat)
}

impl Address {
    pub fn to_address_string(&self) -> (r: String)
        ensures
            r@ == address_text(self@),
    {
        let mut s = self.protocol.clone();
        s.append("://");
        s.append(self.host.as_str());
        s.append(":");
        push_decimal(&mut s, self.port as u64);
        s
    }

    /// A copy with the same protocol, host and port.
    pub fn copy(&self) -> (r: Address)
        ensures
            r@ == self@,
    {
        Address { protocol: self.protocol.clone(), host: self.host.clone(), port: self.port }
    }
}

/// A data node: a named server that clients may fetch the files from.
#[derive(Debug)]
pub struct DataNode {
    pub name: String,
    pub address: Address,
}

pub struct DataNodeView {
    pub name: Seq<char>,
    pub address: AddressView,
}

impl View for DataNode {
    type V = DataNodeView;

    open spec fn view(&self) -> DataNodeView {
        DataNodeView { name: self.name@, address: self.address@ }
    }
}

impl DataNode {
    pub fn get_address_string(&self) -> (r: String)
        ensures
            r@ == address_text(self.address@),
    {
        self.address.to_address_string()
    }

    /// A copy with the same name and address.
    pub fn copy(&self) -> (r: DataNode)
        ensures
            r@ == self@,
    {
        DataNode { name: self.name.clone(), address: self.address.copy() }
    }
}

/// A banner that clients show: an image and its description.
#[derive(Debug)]
pub struct Banner {
    pub image_url: String,
    pub description: String,
}

pub struct BannerView {
    pub image_url: Seq<char>,
    pub description: Seq<char>,
}

impl View for Banner {
    type V = BannerView;

    open spec fn view(&self) -> BannerView {
        BannerView { image_url: self.image_url@, description: self.description@ }
    }
}

impl Banner {
    pub fn new(image_url: &str, description: &str) -> (r: Banner)
        ensures
            r@.image_url == image_url@,
            r@.description == description@,
    {
        Banner { image_url: image_url.to_owned(), description: description.to_owned() }
    }
}

/// The configuration the server runs with.
#[derive(Debug)]
pub struct Config {
    pub log_level: String,
    pub port: u16,
    pub dir: String,
    pub title: String,
    pub announcement: String,
    pub gui: bool,
    pub data_nodes: Vec<DataNode>,
    pub banners: Vec<Banner>,
}

/// The views of a list of data nodes.
pub open spec fn node_views(nodes: Seq<DataNode>) -> Seq<DataNodeView> {
    nodes.map_values(|n: DataNode| n@)
}

/// The views of a list of banners.
pub open spec fn banner_views(banners: Seq<Banner>) -> Seq<BannerView> {
    banners.map_values(|b: Banner| b@)
}

/// The line that describes data node `i`: its index, its name padded to 20
/// characters and its address padded to 30.
pub open spec fn node_line(i: nat, node: DataNodeView) -> Seq<char> {
    "data_node["@ + decimal_text(i) + "]: name: "@ + pad_right(node.name, 20) + ", addr: "@
        + pad_right(address_text(node.address), 30)
}

impl Config {
    /// The lines that describe the configured data nodes, one per node in
    /// order; the program writes them to its debug log.
    pub fn print_config(&self) -> (r: Vec<String>)
        ensures
            r@.len() == self.data_nodes@.len(),
            forall|i: int|
                0 <= i < r@.len() ==> #[trigger] r@[i]@ == node_line(i as nat, self.data_nodes@[i]@),
    {
        let mut lines: Vec<String> = Vec::new();
        let n: usize = self.data_nodes.len();
        let mut i: usize = 0;
        while i < n
            invariant
                n == self.data_nodes@.len(),
                i <= n,
                lines@.len() == i,
                forall|j: int|
                    0 <= j < i ==> #[trigger] lines@[j]@ == node_line(j as nat, self.data_nodes@[j]@),
            decreases n - i,
        {
            let node = &self.data_nodes[i];
            let mut s = String::from_str("data_node[");
            push_decimal(&mut s, i as u64);
            s.append("]: name: ");
            push_padded(&mut s, node.name.as_str(), 20);
            s.append(", addr: ");
            let addr = node.get_address_string();
            push_padded(&mut s, addr.as_str(), 30);
            assert(s@ =~= node_line(i as nat, self.data_nodes@[i as int]@));
            lines.push(s);
            i = i + 1;
        }
        lines
    }
}

/// The body of the `info` answer: the configured data nodes.
pub struct InfoVo {
    pub data_nodes: Vec<DataNode>,
}

impl InfoVo {
    /// An answer that lists a copy of each of `nodes`, in order.
    pub fn from_nodes(nodes: &Vec<DataNode>) -> (r: InfoVo)
        ensures
            node_views(r.data_nodes@) == node_views(nodes@),
    {
        let mut out: Vec<DataNode> = Vec::new();
        let n: usize = nodes.len();
        let mut i: usize = 0;
        while i < n
            invariant
                n == nodes@.len(),
                i <= n,
                out@.len() == i,
                forall|j: int| 0 <= j < i ==> #[trigger] out@[j]@ == nodes@[j]@,
            decreases n - i,
        {
            out.push(nodes[i].copy());
            i = i + 1;
        }
        assert(node_views(out@) =~= node_views(nodes@));
        InfoVo { data_nodes: out }
    }
}

/// The body of the `banner` answer: the configured banners.
pub struct BannerVo {
    pub banners: Vec<Banner>,
}

impl BannerVo {
    pub fn new(banners: Vec<Banner>) -> (r: Self)
        ensures
            r.banners@ == banners@,
    {
        BannerVo { banners }
    }

    /// An answer that lists a copy of each of `banners`, in order.
    pub fn from_banners(banners: &Vec<Banner>) -> (r: Self)
        ensures
            banner_views(r.banners@) == banner_views(banners@),
    {
        let mut out: Vec<Banner> = Vec::new();
        let n: usize = banners.len();
        let mut i: usize = 0;
        while i < n
            invariant
                n == banners@.len(),
                i <= n,
                out@.len() == i,
                forall|j: int| 0 <= j < i ==> #[trigger] out@[j]@ == banners@[j]@,
            decreases n - i,
        {
            let b = &banners[i];
            out.push(Banner::new(b.image_url.as_str(), b.description.as_str()));
            i = i + 1;
        }
        assert(banner_views(out@) =~= banner_views(banners@));
        BannerVo::new(out)
    }
}

} // verus!
