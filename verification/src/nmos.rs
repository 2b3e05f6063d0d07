//! The read-only IS-04 catalog the device advertises beside the control
//! endpoint: a node and a device record, and the TAI timestamp format of
//! their version fields.

use vstd::prelude::*;
use crate::json::{
    Json, JsonV, json_view_fields, json_view_seq, jput, japp, jstr, dec_str, chars_to_string,
};

verus! {

broadcast use vstd::std_specs::vec::group_vec_axioms, vstd::seq::group_seq_axioms;

// ---------------------------------------------------------------------------
// TAI timestamps
// ---------------------------------------------------------------------------

/// `<seconds>:<nanoseconds>`, the seconds shifted by the TAI offset.
pub open spec fn tai_format(secs: u64, nanos: u32) -> Seq<char> {
    dec_str(secs as nat) + seq![':'] + dec_str(nanos as nat)
}

/// The TAI offset the catalog timestamps carry.
pub open spec fn tai_offset() -> u64 {
    37
}

/// Renders an instant as the catalog's version timestamp: the seconds
/// shifted by the TAI offset (saturating at the type bound), a colon, the
/// nanoseconds.
pub fn tai_timestamp_from(secs: u64, nanos: u32) -> (r: String)
    ensures
        r@ == tai_format(
            (if secs <= u64::MAX - tai_offset() {
                (secs + tai_offset()) as u64
            } else {
                u64::MAX
            }),
            nanos,
        ),
{
    let shifted: u64 = if secs <= u64::MAX - 37 {
        secs + 37
    } else {
        u64::MAX
    };
    let mut out: Vec<char> = Vec::new();
    crate::json::write_dec_pub(shifted, &mut out);
    out.push(':');
    let ghost mid = out@;
    crate::json::write_dec_pub(nanos as u64, &mut out);
    proof {
        assert(out@ =~= tai_format(shifted, nanos));
    }
    chars_to_string(&out)
}

/// Relies on SystemTime::now and Duration: seconds and sub-second
/// nanoseconds since the Unix epoch; a clock reading before the epoch
/// counts as zero. The nanoseconds are below one billion.
#[verifier::external_body]
fn now_unix() -> (r: (u64, u32))
    ensures
        r.1 < 1_000_000_000,
{
    match std::time::SystemTime::now().duration_since(std::time::UNIX_EPOCH) {
        Ok(d) => (d.as_secs(), d.subsec_nanos()),
        Err(_) => (0, 0),
    }
}

/// The current time as a TAI `<seconds>:<nanoseconds>` timestamp: whatever
/// instant the clock read, the text is its rendering.
pub fn tai_timestamp() -> (r: String)
    ensures
        exists|secs: u64, nanos: u32|
            nanos < 1_000_000_000 && r@ == #[trigger] tai_format(secs, nanos),
{
    let (secs, nanos) = now_unix();
    let r = tai_timestamp_from(secs, nanos);
    r
}

// ---------------------------------------------------------------------------
// Catalog records
// ---------------------------------------------------------------------------

/// The fields every IS-04 resource carries.
#[derive(Debug)]
pub struct NmosResource {
    pub id: String,
    pub label: String,
    pub description: String,
    pub version: String,
    pub tags: Vec<(String, Vec<String>)>,
}

/// One control endpoint a device advertises.
#[derive(Debug)]
pub struct DeviceControl {
    pub kind_uri: String,
    pub href: String,
    pub authorization: bool,
}

/// The IS-04 device record: its identity and its control endpoints.
#[derive(Debug)]
pub struct NmosDevice {
    pub base: NmosResource,
    pub senders: Vec<String>,
    pub receivers: Vec<String>,
    pub node_id: String,
    pub kind_uri: String,
    pub controls: Vec<DeviceControl>,
}

#[derive(Debug)]
pub struct NmosClock {
    pub name: String,
    pub ref_type: String,
}

#[derive(Debug)]
pub struct NmosInterface {
    pub chassis_id: String,
    pub name: String,
    pub port_id: String,
}

#[derive(Debug)]
pub struct NmosEndpoint {
    pub host: String,
    pub port: u32,
    pub protocol: String,
}

#[derive(Debug)]
pub struct NmosApi {
    pub endpoints: Vec<NmosEndpoint>,
    pub versions: Vec<String>,
}

/// The IS-04 node record.
#[derive(Debug)]
pub struct NmosNode {
    pub base: NmosResource,
    pub href: String,
    pub hostname: String,
    pub caps: Vec<(String, Json)>,
    pub services: Vec<Json>,
    pub clocks: Vec<NmosClock>,
    pub interfaces: Vec<NmosInterface>,
    pub api: NmosApi,
}

impl NmosDevice {
    pub fn new(
        id: String,
        label: String,
        description: String,
        version: String,
        tags: Vec<(String, Vec<String>)>,
        senders: Vec<String>,
        receivers: Vec<String>,
        node_id: String,
        kind_uri: String,
        controls: Vec<DeviceControl>,
    ) -> (r: NmosDevice)
        ensures
            r.base.id == id,
            r.base.label == label,
            r.base.description == description,
            r.base.version == version,
            r.base.tags == tags,
            r.senders == senders,
            r.receivers == receivers,
            r.node_id == node_id,
            r.kind_uri == kind_uri,
            r.controls == controls,
    {
        NmosDevice {
            base: NmosResource { id, label, description, version, tags },
            senders,
            receivers,
            node_id,
            kind_uri,
            controls,
        }
    }
}

impl NmosNode {
    pub fn new(
        id: String,
        label: String,
        description: String,
        version: String,
        tags: Vec<(String, Vec<String>)>,
        href: String,
        hostname: String,
        clocks: Vec<NmosClock>,
        interfaces: Vec<NmosInterface>,
        api: NmosApi,
    ) -> (r: NmosNode)
        ensures
            r.base.id == id,
            r.base.label == label,
            r.base.description == description,
            r.base.version == version,
            r.base.tags == tags,
            r.href == href,
            r.hostname == hostname,
            r.caps@ == Seq::<(String, Json)>::empty(),
            r.services@ == Seq::<Json>::empty(),
            r.clocks == clocks,
            r.interfaces == interfaces,
            r.api == api,
    {
        NmosNode {
            base: NmosResource { id, label, description, version, tags },
            href,
            hostname,
            caps: Vec::new(),
            services: Vec::new(),
            clocks,
            interfaces,
            api,
        }
    }
}

// ---------------------------------------------------------------------------
// Catalog JSON
// ---------------------------------------------------------------------------

pub open spec fn str_arr_json(s: Seq<String>) -> JsonV {
    JsonV::Arr(s.map_values(|x: String| JsonV::Str(x@)))
}

/// A string list as a JSON array.
pub fn jstr_arr(v: &Vec<String>) -> (r: Json)
    ensures
        r@ == str_arr_json(v@),
{
    let mut items: Vec<Json> = Vec::new();
    let mut i: usize = 0;
    while i < v.len()
        invariant
            i <= v@.len(),
            json_view_seq(items@) == v@.take(i as int).map_values(|x: String| JsonV::Str(x@)),
        decreases v@.len() - i,
    {
        japp(&mut items, Json::Str(v[i].clone()));
        proof {
            assert(v@.take(i as int + 1).map_values(|x: String| JsonV::Str(x@)) =~= v@.take(
                i as int,
            ).map_values(|x: String| JsonV::Str(x@)) + seq![JsonV::Str(v@[i as int]@)]);
        }
        i = i + 1;
    }
    proof {
        assert(v@.take(v@.len() as int) =~= v@);
    }
    Json::Arr(items)
}

pub open spec fn tags_json(tags: Seq<(String, Vec<String>)>) -> JsonV {
    JsonV::Obj(tags.map_values(|t: (String, Vec<String>)| (t.0@, str_arr_json(t.1@))))
}

/// The tag map as a JSON object.
pub fn jtags(tags: &Vec<(String, Vec<String>)>) -> (r: Json)
    ensures
        r@ == tags_json(tags@),
{
    let mut fields: Vec<(String, Json)> = Vec::new();
    let mut i: usize = 0;
    while i < tags.len()
        invariant
            i <= tags@.len(),
            json_view_fields(fields@) == tags@.take(i as int).map_values(
                |t: (String, Vec<String>)| (t.0@, str_arr_json(t.1@)),
            ),
        decreases tags@.len() - i,
    {
        jput(&mut fields, tags[i].0.clone().as_str(), jstr_arr(&tags[i].1));
        proof {
            assert(tags@.take(i as int + 1).map_values(
                |t: (String, Vec<String>)| (t.0@, str_arr_json(t.1@)),
            ) =~= tags@.take(i as int).map_values(
                |t: (String, Vec<String>)| (t.0@, str_arr_json(t.1@)),
            ) + seq![(tags@[i as int].0@, str_arr_json(tags@[i as int].1@))]);
            assert(json_view_fields(fields@) =~= tags@.take(i as int + 1).map_values(
                |t: (String, Vec<String>)| (t.0@, str_arr_json(t.1@)),
            ));
        }
        i = i + 1;
    }
    proof {
        assert(tags@.take(tags@.len() as int) =~= tags@);
    }
    Json::Obj(fields)
}

pub open spec fn control_json(c: DeviceControl) -> JsonV {
    JsonV::Obj(
        seq![
            ("type"@, JsonV::Str(c.kind_uri@)),
            ("href"@, JsonV::Str(c.href@)),
            ("authorization"@, JsonV::Bool(c.authorization)),
        ],
    )
}

pub open spec fn device_json(d: NmosDevice) -> JsonV {
    JsonV::Obj(
        seq![
            ("id"@, JsonV::Str(d.base.id@)),
            ("label"@, JsonV::Str(d.base.label@)),
            ("description"@, JsonV::Str(d.base.description@)),
            ("version"@, JsonV::Str(d.base.version@)),
            ("tags"@, tags_json(d.base.tags@)),
            ("senders"@, str_arr_json(d.senders@)),
            ("receivers"@, str_arr_json(d.receivers@)),
            ("node_id"@, JsonV::Str(d.node_id@)),
            ("type"@, JsonV::Str(d.kind_uri@)),
            (
                "controls"@,
                JsonV::Arr(d.controls@.map_values(|c: DeviceControl| control_json(c))),
            ),
        ],
    )
}

impl DeviceControl {
    pub fn to_json(&self) -> (r: Json)
        ensures
            r@ == control_json(*self),
    {
        let mut fields: Vec<(String, Json)> = Vec::new();
        jput(&mut fields, "type", jstr(self.kind_uri.as_str()));
        jput(&mut fields, "href", jstr(self.href.as_str()));
        jput(&mut fields, "authorization", Json::Bool(self.authorization));
        let r = Json::Obj(fields);
        proof {
            assert(json_view_fields(fields@) =~= control_json(*self)->Obj_0);
        }
        r
    }
}

impl NmosDevice {
    /// The device record in its catalog JSON form.
    pub fn to_json(&self) -> (r: Json)
        ensures
            r@ == device_json(*self),
    {
        let mut controls: Vec<Json> = Vec::new();
        let mut i: usize = 0;
        while i < self.controls.len()
            invariant
                i <= self.controls@.len(),
                json_view_seq(controls@) == self.controls@.take(i as int).map_values(
                    |c: DeviceControl| control_json(c),
                ),
            decreases self.controls@.len() - i,
        {
            japp(&mut controls, self.controls[i].to_json());
            proof {
                assert(self.controls@.take(i as int + 1).map_values(
                    |c: DeviceControl| control_json(c),
                ) =~= self.controls@.take(i as int).map_values(|c: DeviceControl| control_json(c))
                    + seq![control_json(self.controls@[i as int])]);
            }
            i = i + 1;
        }
        proof {
            assert(self.controls@.take(self.controls@.len() as int) =~= self.controls@);
        }
        let mut fields: Vec<(String, Json)> = Vec::new();
        jput(&mut fields, "id", jstr(self.base.id.as_str()));
        jput(&mut fields, "label", jstr(self.base.label.as_str()));
        jput(&mut fields, "description", jstr(self.base.description.as_str()));
        jput(&mut fields, "version", jstr(self.base.version.as_str()));
        jput(&mut fields, "tags", jtags(&self.base.tags));
        jput(&mut fields, "senders", jstr_arr(&self.senders));
        jput(&mut fields, "receivers", jstr_arr(&self.receivers));
        jput(&mut fields, "node_id", jstr(self.node_id.as_str()));
        jput(&mut fields, "type", jstr(self.kind_uri.as_str()));
        jput(&mut fields, "controls", Json::Arr(controls));
        let r = Json::Obj(fields);
        proof {
            assert(json_view_fields(fields@) =~= device_json(*self)->Obj_0);
        }
        r
    }
}

pub open spec fn clock_json(c: NmosClock) -> JsonV {
    JsonV::Obj(
        seq![("name"@, JsonV::Str(c.name@)), ("ref_type"@, JsonV::Str(c.ref_type@))],
    )
}

pub open spec fn interface_json(x: NmosInterface) -> JsonV {
    JsonV::Obj(
        seq![
            ("chassis_id"@, JsonV::Str(x.chassis_id@)),
            ("name"@, JsonV::Str(x.name@)),
            ("port_id"@, JsonV::Str(x.port_id@)),
        ],
    )
}

pub open spec fn endpoint_json(x: NmosEndpoint) -> JsonV {
    JsonV::Obj(
        seq![
            ("host"@, JsonV::Str(x.host@)),
            ("port"@, JsonV::UInt(x.port as u64)),
            ("protocol"@, JsonV::Str(x.protocol@)),
        ],
    )
}

pub open spec fn api_json(a: NmosApi) -> JsonV {
    JsonV::Obj(
        seq![
            (
                "endpoints"@,
                JsonV::Arr(a.endpoints@.map_values(|e: NmosEndpoint| endpoint_json(e))),
            ),
            ("versions"@, str_arr_json(a.versions@)),
        ],
    )
}

pub open spec fn node_json(n: NmosNode) -> JsonV {
    JsonV::Obj(
        seq![
            ("id"@, JsonV::Str(n.base.id@)),
            ("label"@, JsonV::Str(n.base.label@)),
            ("description"@, JsonV::Str(n.base.description@)),
            ("version"@, JsonV::Str(n.base.version@)),
            ("tags"@, tags_json(n.base.tags@)),
            ("href"@, JsonV::Str(n.href@)),
            ("hostname"@, JsonV::Str(n.hostname@)),
            ("caps"@, JsonV::Obj(json_view_fields(n.caps@))),
            ("services"@, JsonV::Arr(json_view_seq(n.services@))),
            ("clocks"@, JsonV::Arr(n.clocks@.map_values(|c: NmosClock| clock_json(c)))),
            (
                "interfaces"@,
                JsonV::Arr(n.interfaces@.map_values(|x: NmosInterface| interface_json(x))),
            ),
            ("api"@, api_json(n.api)),
        ],
    )
}

impl NmosNode {
    /// The node record in its catalog JSON form.
    pub fn to_json(&self) -> (r: Json)
        ensures
            r@ == node_json(*self),
    {
        let mut caps: Vec<(String, Json)> = Vec::new();
        let mut i: usize = 0;
        while i < self.caps.len()
            invariant
                i <= self.caps@.len(),
                json_view_fields(caps@) == json_view_fields(self.caps@.take(i as int)),
            decreases self.caps@.len() - i,
        {
            let k = self.caps[i].0.clone();
            jput(&mut caps, k.as_str(), self.caps[i].1.clone_json());
            proof {
                assert(self.caps@.take(i as int + 1) =~= self.caps@.take(i as int).push(
                    self.caps@[i as int],
                ));
                crate::json::lemma_view_fields_push(
                    self.caps@.take(i as int),
                    self.caps@[i as int].0,
                    self.caps@[i as int].1,
                );
            }
            i = i + 1;
        }
        proof {
            assert(self.caps@.take(self.caps@.len() as int) =~= self.caps@);
        }
        let mut services: Vec<Json> = Vec::new();
        let mut j: usize = 0;
        while j < self.services.len()
            invariant
                j <= self.services@.len(),
                json_view_seq(services@) == json_view_seq(self.services@.take(j as int)),
            decreases self.services@.len() - j,
        {
            japp(&mut services, self.services[j].clone_json());
            proof {
                assert(self.services@.take(j as int + 1) =~= self.services@.take(j as int).push(
                    self.services@[j as int],
                ));
                crate::json::lemma_view_seq_push(
                    self.services@.take(j as int),
                    self.services@[j as int],
                );
            }
            j = j + 1;
        }
        proof {
            assert(self.services@.take(self.services@.len() as int) =~= self.services@);
        }
        let mut clocks: Vec<Json> = Vec::new();
        let mut k: usize = 0;
        while k < self.clocks.len()
            invariant
                k <= self.clocks@.len(),
                json_view_seq(clocks@) == self.clocks@.take(k as int).map_values(
                    |c: NmosClock| clock_json(c),
                ),
            decreases self.clocks@.len() - k,
        {
            let c = &self.clocks[k];
            let mut cf: Vec<(String, Json)> = Vec::new();
            jput(&mut cf, "name", jstr(c.name.as_str()));
            jput(&mut cf, "ref_type", jstr(c.ref_type.as_str()));
            proof {
                assert(json_view_fields(cf@) =~= clock_json(self.clocks@[k as int])->Obj_0);
            }
            japp(&mut clocks, Json::Obj(cf));
            proof {
                assert(self.clocks@.take(k as int + 1).map_values(|c: NmosClock| clock_json(c))
                    =~= self.clocks@.take(k as int).map_values(|c: NmosClock| clock_json(c))
                    + seq![clock_json(self.clocks@[k as int])]);
            }
            k = k + 1;
        }
        proof {
            assert(self.clocks@.take(self.clocks@.len() as int) =~= self.clocks@);
        }
        let mut ifaces: Vec<Json> = Vec::new();
        let mut m: usize = 0;
        while m < self.interfaces.len()
            invariant
                m <= self.interfaces@.len(),
                json_view_seq(ifaces@) == self.interfaces@.take(m as int).map_values(
                    |x: NmosInterface| interface_json(x),
                ),
            decreases self.interfaces@.len() - m,
        {
            let x = &self.interfaces[m];
            let mut xf: Vec<(String, Json)> = Vec::new();
            jput(&mut xf, "chassis_id", jstr(x.chassis_id.as_str()));
            jput(&mut xf, "name", jstr(x.name.as_str()));
            jput(&mut xf, "port_id", jstr(x.port_id.as_str()));
            proof {
                assert(json_view_fields(xf@) =~= interface_json(
                    self.interfaces@[m as int],
                )->Obj_0);
            }
            japp(&mut ifaces, Json::Obj(xf));
            proof {
                assert(self.interfaces@.take(m as int + 1).map_values(
                    |x: NmosInterface| interface_json(x),
                ) =~= self.interfaces@.take(m as int).map_values(
                    |x: NmosInterface| interface_json(x),
                ) + seq![interface_json(self.interfaces@[m as int])]);
            }
            m = m + 1;
        }
        proof {
            assert(self.interfaces@.take(self.interfaces@.len() as int) =~= self.interfaces@);
        }
        let mut eps: Vec<Json> = Vec::new();
        let mut n: usize = 0;
        while n < self.api.endpoints.len()
            invariant
                n <= self.api.endpoints@.len(),
                json_view_seq(eps@) == self.api.endpoints@.take(n as int).map_values(
                    |e: NmosEndpoint| endpoint_json(e),
                ),
            decreases self.api.endpoints@.len() - n,
        {
            let e = &self.api.endpoints[n];
            let mut ef: Vec<(String, Json)> = Vec::new();
            jput(&mut ef, "host", jstr(e.host.as_str()));
            jput(&mut ef, "port", Json::UInt(e.port as u64));
            jput(&mut ef, "protocol", jstr(e.protocol.as_str()));
            proof {
                assert(json_view_fields(ef@) =~= endpoint_json(
                    self.api.endpoints@[n as int],
                )->Obj_0);
            }
            japp(&mut eps, Json::Obj(ef));
            proof {
                assert(self.api.endpoints@.take(n as int + 1).map_values(
                    |e: NmosEndpoint| endpoint_json(e),
                ) =~= self.api.endpoints@.take(n as int).map_values(
                    |e: NmosEndpoint| endpoint_json(e),
                ) + seq![endpoint_json(self.api.endpoints@[n as int])]);
            }
            n = n + 1;
        }
        proof {
            assert(self.api.endpoints@.take(self.api.endpoints@.len() as int)
                =~= self.api.endpoints@);
        }
        let mut af: Vec<(String, Json)> = Vec::new();
        jput(&mut af, "endpoints", Json::Arr(eps));
        jput(&mut af, "versions", jstr_arr(&self.api.versions));
        proof {
            assert(json_view_fields(af@) =~= api_json(self.api)->Obj_0);
        }
        let mut fields: Vec<(String, Json)> = Vec::new();
        jput(&mut fields, "id", jstr(self.base.id.as_str()));
        jput(&mut fields, "label", jstr(self.base.label.as_str()));
        jput(&mut fields, "description", jstr(self.base.description.as_str()));
        jput(&mut fields, "version", jstr(self.base.version.as_str()));
        jput(&mut fields, "tags", jtags(&self.base.tags));
        jput(&mut fields, "href", jstr(self.href.as_str()));
        jput(&mut fields, "hostname", jstr(self.hostname.as_str()));
        jput(&mut fields, "caps", Json::Obj(caps));
        jput(&mut fields, "services", Json::Arr(services));
        jput(&mut fields, "clocks", Json::Arr(clocks));
        jput(&mut fields, "interfaces", Json::Arr(ifaces));
        jput(&mut fields, "api", Json::Obj(af));
        let r = Json::Obj(fields);
        proof {
            assert(json_view_fields(fields@) =~= node_json(*self)->Obj_0);
        }
        r
    }
}

} // verus!
