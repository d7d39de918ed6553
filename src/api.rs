//! The provider's resources as the workflows see them, and the pure parts of
//! talking to its REST API: endpoint addresses, the authorization header, the
//! status codes that count as success, and request bodies.

use vstd::prelude::*;
use crate::text::{decimal, u32_to_decimal, views};

verus! {

/// Body of a request that creates an instance from an image.
pub struct CreateDropletBody {
    pub name: String,
    pub region: String,
    pub size: String,
    /// Id of the snapshot the instance boots from.
    pub image: String,
    pub ssh_keys: Vec<String>,
}

/// Model of [`CreateDropletBody`].
pub struct CreateBodyView {
    pub name: Seq<char>,
    pub region: Seq<char>,
    pub size: Seq<char>,
    pub image: Seq<char>,
    pub ssh_keys: Seq<Seq<char>>,
}

impl View for CreateDropletBody {
    type V = CreateBodyView;

    open spec fn view(&self) -> CreateBodyView {
        CreateBodyView {
            name: self.name@,
            region: self.region@,
            size: self.size@,
            image: self.image@,
            ssh_keys: views(self.ssh_keys@),
        }
    }
}

/// Body of an action request on an instance (`shutdown`, `snapshot`).
pub struct Action {
    pub kind: String,
    pub name: Option<String>,
}

/// A stored disk image.
pub struct Snapshot {
    pub id: String,
    pub name: String,
    pub created_at: String,
}

/// One IPv4 interface of an instance.
pub struct DropletNetworkV4 {
    pub ip_address: String,
    pub netmask: String,
    pub gateway: String,
    pub kind: String,
}

pub struct DropletNetwork {
    pub v4: Vec<DropletNetworkV4>,
}

/// A server instance as the provider reports it.
pub struct Droplet {
    pub id: u32,
    pub name: String,
    pub status: String,
    pub networks: Option<DropletNetwork>,
}

pub open spec fn droplets_address() -> Seq<char> {
    "https://api.digitalocean.com/v2/droplets"@
}

pub open spec fn snapshots_address() -> Seq<char> {
    "https://api.digitalocean.com/v2/snapshots"@
}

/// Address of the instance collection (list and create).
pub fn droplets_url() -> (r: String)
    ensures
        r@ == droplets_address(),
{
    String::from_str("https://api.digitalocean.com/v2/droplets")
}

/// Address of the snapshot collection (list).
pub fn snapshots_url() -> (r: String)
    ensures
        r@ == snapshots_address(),
{
    String::from_str("https://api.digitalocean.com/v2/snapshots")
}

/// Address of one instance (fetch and delete).
pub fn droplet_url(id: u32) -> (r: String)
    ensures
        r@ == droplets_address() + seq!['/'] + decimal(id as nat),
{
    proof {
        reveal_strlit("/");
    }
    let mut r = droplets_url();
    r.append("/");
    let n = u32_to_decimal(id);
    r.append(n.as_str());
    r
}

/// Address of the actions of one instance (shutdown, snapshot).
pub fn get_droplet_actions_url(id: u32) -> (r: String)
    ensures
        r@ == droplets_address() + seq!['/'] + decimal(id as nat) + "/actions"@,
{
    let mut r = droplet_url(id);
    r.append("/actions");
    r
}

/// Address of one snapshot (delete).
pub fn snapshot_url(id: &str) -> (r: String)
    ensures
        r@ == snapshots_address() + seq!['/'] + id@,
{
    proof {
        reveal_strlit("/");
    }
    let mut r = snapshots_url();
    r.append("/");
    r.append(id);
    r
}

/// Value of the `Authorization` header for a bearer token.
pub fn bearer_header(token: &str) -> (r: String)
    ensures
        r@ == "Bearer "@ + token@,
{
    String::from_str("Bearer ").concat(token)
}

/// Whether a response status to a POST or DELETE counts as success: any
/// 2xx, among them 201 Created, 202 Accepted and 204 No Content.
pub fn status_accepted(code: u16) -> (r: bool)
    ensures
        r == (200 <= code && code < 300),
{
    200 <= code && code < 300
}

/// The action that asks an instance to shut down.
pub fn shutdown_action() -> (r: Action)
    ensures
        r.kind@ == "shutdown"@,
        r.name is None,
{
    Action { kind: String::from_str("shutdown"), name: None }
}

/// The action that takes a snapshot of an instance under `name`.
pub fn snapshot_action(name: &str) -> (r: Action)
    ensures
        r.kind@ == "snapshot"@,
        r.name matches Some(n) && n@ == name@,
{
    Action { kind: String::from_str("snapshot"), name: Some(String::from_str(name)) }
}

} // verus!
