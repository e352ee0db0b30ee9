//! The network list: access points merged by SSID, with their connection
//! status, ordered for display.
use vstd::prelude::*;
use crate::access_point::{AccessPointInfo, AccessPointView};
use crate::saved::SavedConnections;
use crate::text::opt_text;
use crate::types::{ConnectionStatus, SecurityType};

verus! {

/// One row of the network list.
#[derive(Clone, Debug)]
pub struct WifiNetwork {
    pub ssid: String,
    pub bssid: String,
    pub signal_strength: u8,
    pub frequency: u32,
    pub security: SecurityType,
    pub status: ConnectionStatus,
    pub ap_path: String,
    pub saved_connection_path: Option<String>,
}

/// A network with its text fields taken as character sequences.
pub struct NetworkView {
    pub ssid: Seq<char>,
    pub bssid: Seq<char>,
    pub signal_strength: u8,
    pub frequency: u32,
    pub security: SecurityType,
    pub status: ConnectionStatus,
    pub ap_path: Seq<char>,
    pub saved_connection_path: Option<Seq<char>>,
}

impl View for WifiNetwork {
    type V = NetworkView;

    open spec fn view(&self) -> NetworkView {
        NetworkView {
            ssid: self.ssid@,
            bssid: self.bssid@,
            signal_strength: self.signal_strength,
            frequency: self.frequency,
            security: self.security,
            status: self.status,
            ap_path: self.ap_path@,
            saved_connection_path: opt_text(self.saved_connection_path),
        }
    }
}

/// An access point found by a scan, with its object path.
#[derive(Clone, Debug)]
pub struct ScannedAccessPoint {
    pub path: String,
    pub info: AccessPointInfo,
}

/// A scanned access point as text.
pub struct ScannedView {
    pub path: Seq<char>,
    pub info: AccessPointView,
}

impl View for ScannedAccessPoint {
    type V = ScannedView;

    open spec fn view(&self) -> ScannedView {
        ScannedView { path: self.path@, info: self.info@ }
    }
}

/// The networks of a vector, as text.
pub open spec fn network_views(s: Seq<WifiNetwork>) -> Seq<NetworkView> {
    s.map_values(|n: WifiNetwork| n@)
}

/// The access points of a vector, as text.
pub open spec fn scanned_views(s: Seq<ScannedAccessPoint>) -> Seq<ScannedView> {
    s.map_values(|a: ScannedAccessPoint| a@)
}

/// The status of an access point: connected when it is the active one,
/// known when a profile is saved for its SSID, disconnected otherwise.
pub open spec fn ap_status(
    ap: ScannedView,
    active: Option<Seq<char>>,
    saved: Map<Seq<char>, Seq<char>>,
) -> ConnectionStatus {
    if active == Some(ap.path) {
        ConnectionStatus::Connected
    } else if saved.contains_key(ap.info.ssid) {
        ConnectionStatus::Known
    } else {
        ConnectionStatus::Disconnected
    }
}

/// The row that an access point gives.
pub open spec fn network_for(
    ap: ScannedView,
    active: Option<Seq<char>>,
    saved: Map<Seq<char>, Seq<char>>,
) -> NetworkView {
    NetworkView {
        ssid: ap.info.ssid,
        bssid: ap.info.bssid,
        signal_strength: ap.info.strength,
        frequency: ap.info.frequency,
        security: ap.info.security,
        status: ap_status(ap, active, saved),
        ap_path: ap.path,
        saved_connection_path: if saved.contains_key(ap.info.ssid) {
            Some(saved[ap.info.ssid])
        } else {
            None
        },
    }
}

/// The position of the first row with the given SSID, or -1.
pub open spec fn ssid_index(nets: Seq<NetworkView>, ssid: Seq<char>) -> int
    decreases nets.len(),
{
    if nets.len() == 0 {
        -1
    } else {
        let i = ssid_index(nets.drop_last(), ssid);
        if i >= 0 {
            i
        } else if nets.last().ssid == ssid {
            nets.len() - 1
        } else {
            -1
        }
    }
}

/// Adds one row to the list: a new SSID is appended; for an SSID already
/// listed, the new row takes the place of the old one when its signal is
/// stronger and the old one is not the connected network.
pub open spec fn merge_step(nets: Seq<NetworkView>, n: NetworkView) -> Seq<NetworkView> {
    let i = ssid_index(nets, n.ssid);
    if i >= 0 {
        if n.signal_strength > nets[i].signal_strength && nets[i].status
            != ConnectionStatus::Connected {
            nets.update(i, n)
        } else {
            nets
        }
    } else {
        nets.push(n)
    }
}

/// The rows of a sequence of access points, one per SSID, in the order in
/// which the SSIDs first appear.
#[verifier::opaque]
pub open spec fn merged(
    aps: Seq<ScannedView>,
    active: Option<Seq<char>>,
    saved: Map<Seq<char>, Seq<char>>,
) -> Seq<NetworkView>
    decreases aps.len(),
{
    if aps.len() == 0 {
        seq![]
    } else {
        merge_step(merged(aps.drop_last(), active, saved), network_for(aps.last(), active, saved))
    }
}

/// The display rank of a status: connected, connecting, known, then the rest.
pub open spec fn status_rank(s: ConnectionStatus) -> int {
    match s {
        ConnectionStatus::Connected => 0,
        ConnectionStatus::Connecting => 1,
        ConnectionStatus::Known => 2,
        ConnectionStatus::Disconnected => 3,
    }
}

/// The order key of a row: rank of its status first, then signal strength
/// from strongest to weakest (a smaller key comes first).
pub open spec fn sort_key(n: NetworkView) -> int {
    status_rank(n.status) * 256 + (255 - n.signal_strength)
}

/// `out` is `inp` sorted by `sort_key`, rows with equal keys keeping their
/// order, with `idx[i]` the position in `inp` of the row at `i` in `out`.
pub open spec fn stable_sort_witness(
    inp: Seq<NetworkView>,
    out: Seq<NetworkView>,
    idx: Seq<int>,
) -> bool {
    &&& out.len() == inp.len()
    &&& idx.len() == inp.len()
    &&& forall|i: int| 0 <= i < out.len() ==> 0 <= #[trigger] idx[i] < inp.len()
    &&& forall|i: int| 0 <= i < out.len() ==> #[trigger] out[i] == inp[idx[i]]
    &&& forall|i: int, j: int| 0 <= i < j < out.len() ==> #[trigger] idx[i] != #[trigger] idx[j]
    &&& forall|i: int, j: int|
        0 <= i < j < out.len() ==> sort_key(#[trigger] out[i]) <= sort_key(#[trigger] out[j])
    &&& forall|i: int, j: int|
        0 <= i < j < out.len() && sort_key(#[trigger] out[i]) == sort_key(#[trigger] out[j])
            ==> idx[i] < idx[j]
}

/// `out` is a stable sort of `inp` by `sort_key`.
pub open spec fn stably_sorted(inp: Seq<NetworkView>, out: Seq<NetworkView>) -> bool {
    exists|idx: Seq<int>| stable_sort_witness(inp, out, idx)
}

/// The status rank used to order rows.
fn status_rank_exec(s: ConnectionStatus) -> (r: u32)
    ensures
        r == status_rank(s),
{
    match s {
        ConnectionStatus::Connected => 0,
        ConnectionStatus::Connecting => 1,
        ConnectionStatus::Known => 2,
        ConnectionStatus::Disconnected => 3,
    }
}

fn network_sort_key(n: &WifiNetwork) -> (k: u32)
    ensures
        k == sort_key(n@),
{
    status_rank_exec(n.status) * 256 + (255 - n.signal_strength as u32)
}

/// Orders rows as the list shows them: connected first, then known, then the
/// others, each group by signal strength from strongest to weakest; rows that
/// tie keep their order.
pub fn sort_networks(v: Vec<WifiNetwork>) -> (r: Vec<WifiNetwork>)
    ensures
        stably_sorted(network_views(v@), network_views(r@)),
{
    let ghost inp = network_views(v@);
    let n = v.len();
    let mut rest = v;
    let mut out: Vec<WifiNetwork> = Vec::new();
    let ghost mut idx: Seq<int> = seq![];
    let mut m: usize = 0;
    while m < n
        invariant
            n == inp.len(),
            m <= n,
            network_views(rest@) == inp.subrange(m as int, n as int),
            rest@.len() == n - m,
            out@.len() == m,
            stable_sort_witness(inp.take(m as int), network_views(out@), idx),
            forall|i: int| 0 <= i < m ==> 0 <= #[trigger] idx[i] < m,
        decreases n - m,
    {
        let ghost old_out = network_views(out@);
        let ghost old_idx = idx;
        let ghost old_rest = rest@;
        let x = rest.remove(0);
        assert(x@ == inp[m as int]) by {
            assert(network_views(old_rest)[0] == old_rest[0]@);
            assert(network_views(old_rest)[0] == inp.subrange(m as int, n as int)[0]);
        }
        let kx = network_sort_key(&x);
        let mut pos: usize = 0;
        while pos < out.len() && network_sort_key(&out[pos]) <= kx
            invariant
                pos <= out@.len(),
                old_out == network_views(out@),
                forall|p: int| 0 <= p < pos ==> sort_key(#[trigger] old_out[p]) <= kx,
                forall|i: int, j: int|
                    0 <= i < j < old_out.len() ==> sort_key(#[trigger] old_out[i]) <= sort_key(
                        #[trigger] old_out[j],
                    ),
                kx == sort_key(x@),
            decreases out@.len() - pos,
        {
            assert(old_out[pos as int] == out@[pos as int]@);
            pos = pos + 1;
        }
        if pos < out.len() {
            assert(old_out[pos as int] == out@[pos as int]@);
            assert(sort_key(old_out[pos as int]) > kx);
        }
        assert(forall|p: int| pos <= p < old_out.len() ==> sort_key(#[trigger] old_out[p]) > kx);
        out.insert(pos, x);
        proof {
            idx = old_idx.insert(pos as int, m as int);
            let new_out = network_views(out@);
            assert(new_out =~= old_out.insert(pos as int, x@));
            assert(inp.take(m + 1).drop_last() =~= inp.take(m as int));
            assert forall|i: int| 0 <= i < rest@.len() implies #[trigger] network_views(rest@)[i]
                == network_views(old_rest)[i + 1] by {
                assert(rest@[i] == old_rest[i + 1]);
            }
            assert(network_views(rest@) =~= inp.subrange(m + 1, n as int));
            assert forall|i: int| 0 <= i < new_out.len() implies #[trigger] new_out[i] == inp.take(
                m + 1,
            )[idx[i]] by {
                if i < pos {
                } else if i == pos {
                } else {
                    assert(new_out[i] == old_out[i - 1]);
                }
            }
            assert forall|i: int, j: int| 0 <= i < j < new_out.len() implies #[trigger] idx[i]
                != #[trigger] idx[j] by {
                if i < pos && j < pos {
                } else if i < pos && j == pos {
                } else if i < pos && j > pos {
                    assert(idx[j] == old_idx[j - 1]);
                } else if i == pos {
                    assert(idx[j] == old_idx[j - 1]);
                } else {
                    assert(idx[i] == old_idx[i - 1]);
                    assert(idx[j] == old_idx[j - 1]);
                }
            }
            assert forall|i: int, j: int| 0 <= i < j < new_out.len() implies sort_key(
                #[trigger] new_out[i],
            ) <= sort_key(#[trigger] new_out[j]) && (sort_key(new_out[i]) == sort_key(new_out[j])
                ==> idx[i] < idx[j]) by {
                if i < pos && j < pos {
                } else if i < pos && j == pos {
                } else if i < pos && j > pos {
                    assert(new_out[j] == old_out[j - 1]);
                    assert(idx[j] == old_idx[j - 1]);
                } else if i == pos {
                    assert(new_out[j] == old_out[j - 1]);
                } else {
                    assert(new_out[i] == old_out[i - 1]);
                    assert(new_out[j] == old_out[j - 1]);
                    assert(idx[i] == old_idx[i - 1]);
                    assert(idx[j] == old_idx[j - 1]);
                }
            }
            assert(stable_sort_witness(inp.take(m + 1), new_out, idx));
        }
        m = m + 1;
    }
    assert(inp.take(n as int) =~= inp);
    out
}

/// The row that one scanned access point gives.
fn network_for_ap(ap: &ScannedAccessPoint, active: &Option<String>, saved: &SavedConnections) -> (r:
    WifiNetwork)
    ensures
        r@ == network_for(ap@, opt_text(*active), saved@),
{
    let saved_path = saved.get(&ap.info.ssid);
    let is_active = match active {
        Some(a) => *a == ap.path,
        None => false,
    };
    let status = if is_active {
        ConnectionStatus::Connected
    } else if saved_path.is_some() {
        ConnectionStatus::Known
    } else {
        ConnectionStatus::Disconnected
    };
    WifiNetwork {
        ssid: ap.info.ssid.clone(),
        bssid: ap.info.bssid.clone(),
        signal_strength: ap.info.strength,
        frequency: ap.info.frequency,
        security: ap.info.security,
        status,
        ap_path: ap.path.clone(),
        saved_connection_path: saved_path,
    }
}

/// Where the first row of `nets` with the given SSID stands.
fn find_ssid(nets: &Vec<WifiNetwork>, ssid: &String) -> (r: Option<usize>)
    ensures
        match r {
            Some(i) => ssid_index(network_views(nets@), ssid@) == i,
            None => ssid_index(network_views(nets@), ssid@) == -1,
        },
{
    let ghost all = network_views(nets@);
    let mut found: Option<usize> = None;
    let mut j: usize = 0;
    while j < nets.len()
        invariant
            j <= nets@.len(),
            all == network_views(nets@),
            match found {
                Some(i) => ssid_index(all.take(j as int), ssid@) == i,
                None => ssid_index(all.take(j as int), ssid@) == -1,
            },
        decreases nets@.len() - j,
    {
        assert(all.take(j + 1).drop_last() =~= all.take(j as int));
        assert(all.take(j + 1).last() == nets@[j as int]@);
        if found.is_none() && nets[j].ssid == *ssid {
            found = Some(j);
        }
        j = j + 1;
    }
    assert(all.take(j as int) =~= all);
    found
}

/// A position found by `ssid_index` holds a row with that SSID; -1 means
/// that no row has it.
pub proof fn lemma_ssid_index(nets: Seq<NetworkView>, ssid: Seq<char>)
    ensures
        -1 <= ssid_index(nets, ssid) < nets.len(),
        ssid_index(nets, ssid) >= 0 ==> nets[ssid_index(nets, ssid)].ssid == ssid,
        ssid_index(nets, ssid) >= 0 ==> forall|k: int|
            0 <= k < ssid_index(nets, ssid) ==> #[trigger] nets[k].ssid != ssid,
        ssid_index(nets, ssid) == -1 ==> forall|k: int| 0 <= k < nets.len() ==> #[trigger] nets[k].ssid
            != ssid,
    decreases nets.len(),
{
    if nets.len() > 0 {
        lemma_ssid_index(nets.drop_last(), ssid);
        assert forall|k: int| 0 <= k < nets.len() - 1 implies #[trigger] nets[k] == nets.drop_last()[k] by {}
    }
}

/// Merges scanned access points into one row per SSID: a later access point
/// with the same SSID replaces the row when its signal is stronger, unless the
/// row is the connected network.
pub fn merge_access_points(
    aps: &Vec<ScannedAccessPoint>,
    active: &Option<String>,
    saved: &SavedConnections,
) -> (r: Vec<WifiNetwork>)
    ensures
        network_views(r@) == merged(scanned_views(aps@), opt_text(*active), saved@),
{
    let ghost input = scanned_views(aps@);
    let ghost act = opt_text(*active);
    proof {
        reveal(merged);
    }
    let mut networks: Vec<WifiNetwork> = Vec::new();
    let mut k: usize = 0;
    while k < aps.len()
        invariant
            k <= aps@.len(),
            input == scanned_views(aps@),
            act == opt_text(*active),
            network_views(networks@) == merged(input.take(k as int), act, saved@),
        decreases aps@.len() - k,
    {
        let ghost before = network_views(networks@);
        proof {
            reveal(merged);
        }
        assert(input.take(k + 1).drop_last() =~= input.take(k as int));
        assert(input.take(k + 1).last() == aps@[k as int]@);
        let net = network_for_ap(&aps[k], active, saved);
        let ghost nv = net@;
        proof {
            lemma_ssid_index(before, nv.ssid);
        }
        match find_ssid(&networks, &net.ssid) {
            Some(i) => {
                assert(before[i as int] == networks@[i as int]@);
                if net.signal_strength > networks[i].signal_strength && networks[i].status
                    != ConnectionStatus::Connected {
                    networks.set(i, net);
                    assert(network_views(networks@) =~= before.update(i as int, nv));
                }
            },
            None => {
                networks.push(net);
                assert(network_views(networks@) =~= before.push(nv));
            },
        }
        k = k + 1;
    }
    assert(input.take(k as int) =~= input);
    networks
}

/// The network list shown to the user: the merged rows of the scanned access
/// points, ordered by `sort_networks`.
pub fn build_network_list(
    aps: &Vec<ScannedAccessPoint>,
    active: &Option<String>,
    saved: &SavedConnections,
) -> (r: Vec<WifiNetwork>)
    ensures
        stably_sorted(merged(scanned_views(aps@), opt_text(*active), saved@), network_views(r@)),
{
    let networks = merge_access_points(aps, active, saved);
    sort_networks(networks)
}

/// No two rows share an SSID.
pub open spec fn ssids_distinct(nets: Seq<NetworkView>) -> bool {
    forall|i: int, j: int| 0 <= i < j < nets.len() ==> #[trigger] nets[i].ssid != #[trigger] nets[j].ssid
}

proof fn lemma_distinct_step(prev: Seq<NetworkView>, n: NetworkView)
    requires
        ssids_distinct(prev),
    ensures
        ssids_distinct(merge_step(prev, n)),
{
    lemma_ssid_index(prev, n.ssid);
    let cur = merge_step(prev, n);
    assert forall|i: int, j: int| 0 <= i < j < cur.len() implies #[trigger] cur[i].ssid
        != #[trigger] cur[j].ssid by {
        if ssid_index(prev, n.ssid) < 0 {
            if j == prev.len() {
                assert(cur[i] == prev[i]);
            } else {
                assert(cur[i] == prev[i] && cur[j] == prev[j]);
            }
        } else {
            assert(cur[i].ssid == prev[i].ssid && cur[j].ssid == prev[j].ssid);
        }
    }
}

/// Each SSID has at most one row in the merged list.
pub proof fn lemma_merged_ssids_distinct(
    aps: Seq<ScannedView>,
    active: Option<Seq<char>>,
    saved: Map<Seq<char>, Seq<char>>,
)
    ensures
        ssids_distinct(merged(aps, active, saved)),
    decreases aps.len(),
{
    reveal(merged);
    if aps.len() > 0 {
        lemma_merged_ssids_distinct(aps.drop_last(), active, saved);
        lemma_distinct_step(merged(aps.drop_last(), active, saved), network_for(aps.last(), active, saved));
    }
}

/// Merging keeps every listed SSID at its place and adds at most one row.
proof fn lemma_merge_step_keeps_ssids(nets: Seq<NetworkView>, n: NetworkView)
    ensures
        merge_step(nets, n).len() == nets.len() || merge_step(nets, n).len() == nets.len() + 1,
        forall|i: int| 0 <= i < nets.len() ==> #[trigger] merge_step(nets, n)[i].ssid == nets[i].ssid,
        exists|i: int| 0 <= i < merge_step(nets, n).len() && #[trigger] merge_step(nets, n)[i].ssid == n.ssid,
{
    lemma_ssid_index(nets, n.ssid);
    let i = ssid_index(nets, n.ssid);
    if i >= 0 {
        assert(merge_step(nets, n)[i].ssid == n.ssid);
    } else {
        assert(merge_step(nets, n)[nets.len() as int].ssid == n.ssid);
    }
}

/// Some row of `nets` has the given SSID.
pub open spec fn has_ssid(nets: Seq<NetworkView>, ssid: Seq<char>) -> bool {
    exists|i: int| 0 <= i < nets.len() && #[trigger] nets[i].ssid == ssid
}

/// Every access point's SSID has a row in `nets`.
pub open spec fn covers_ssids(aps: Seq<ScannedView>, nets: Seq<NetworkView>) -> bool {
    forall|k: int| 0 <= k < aps.len() ==> has_ssid(nets, (#[trigger] aps[k]).info.ssid)
}

/// `row` is the row of one of the access points.
pub open spec fn row_of_some_ap(
    aps: Seq<ScannedView>,
    row: NetworkView,
    active: Option<Seq<char>>,
    saved: Map<Seq<char>, Seq<char>>,
) -> bool {
    exists|k: int| 0 <= k < aps.len() && row == network_for(#[trigger] aps[k], active, saved)
}

/// Every row of `nets` is the row of one of the access points.
pub open spec fn rows_from_scan(
    aps: Seq<ScannedView>,
    nets: Seq<NetworkView>,
    active: Option<Seq<char>>,
    saved: Map<Seq<char>, Seq<char>>,
) -> bool {
    forall|i: int| 0 <= i < nets.len() ==> row_of_some_ap(aps, #[trigger] nets[i], active, saved)
}

proof fn lemma_covers_step(
    aps: Seq<ScannedView>,
    prev: Seq<NetworkView>,
    n: NetworkView,
)
    requires
        aps.len() > 0,
        n.ssid == aps.last().info.ssid,
        covers_ssids(aps.drop_last(), prev),
    ensures
        covers_ssids(aps, merge_step(prev, n)),
{
    let prev_aps = aps.drop_last();
    let cur = merge_step(prev, n);
    lemma_merge_step_keeps_ssids(prev, n);
    assert forall|k: int| 0 <= k < aps.len() implies has_ssid(cur, (#[trigger] aps[k]).info.ssid) by {
        if k < aps.len() - 1 {
            assert(prev_aps[k] == aps[k]);
            assert(has_ssid(prev, prev_aps[k].info.ssid));
            let i0 = choose|i: int| 0 <= i < prev.len() && #[trigger] prev[i].ssid == prev_aps[k].info.ssid;
            assert(cur[i0].ssid == prev[i0].ssid);
        } else {
            assert(aps[k] == aps.last());
            let i1 = choose|i: int| 0 <= i < cur.len() && #[trigger] cur[i].ssid == n.ssid;
            assert(cur[i1].ssid == aps[k].info.ssid);
        }
    }
}

proof fn lemma_rows_step(
    aps: Seq<ScannedView>,
    prev: Seq<NetworkView>,
    active: Option<Seq<char>>,
    saved: Map<Seq<char>, Seq<char>>,
)
    requires
        aps.len() > 0,
        rows_from_scan(aps.drop_last(), prev, active, saved),
    ensures
        rows_from_scan(aps, merge_step(prev, network_for(aps.last(), active, saved)), active, saved),
{
    let prev_aps = aps.drop_last();
    let n = network_for(aps.last(), active, saved);
    let cur = merge_step(prev, n);
    lemma_ssid_index(prev, n.ssid);
    assert forall|i: int| 0 <= i < cur.len() implies row_of_some_ap(aps, #[trigger] cur[i], active, saved) by {
        if cur[i] == n {
            assert(aps[aps.len() - 1] == aps.last());
        } else {
            assert(i < prev.len() && cur[i] == prev[i]);
            assert(row_of_some_ap(prev_aps, prev[i], active, saved));
            let k0 = choose|k: int|
                0 <= k < prev_aps.len() && prev[i] == network_for(#[trigger] prev_aps[k], active, saved);
            assert(prev_aps[k0] == aps[k0]);
        }
    }
}

/// Every scanned SSID has a row, and every row is the row of one of the
/// scanned access points.
pub proof fn lemma_merged_covers_scan(
    aps: Seq<ScannedView>,
    active: Option<Seq<char>>,
    saved: Map<Seq<char>, Seq<char>>,
)
    ensures
        covers_ssids(aps, merged(aps, active, saved)),
        rows_from_scan(aps, merged(aps, active, saved), active, saved),
    decreases aps.len(),
{
    reveal(merged);
    if aps.len() > 0 {
        lemma_merged_covers_scan(aps.drop_last(), active, saved);
        lemma_covers_step(
            aps,
            merged(aps.drop_last(), active, saved),
            network_for(aps.last(), active, saved),
        );
        lemma_rows_step(aps, merged(aps.drop_last(), active, saved), active, saved);
    }
}

/// Each row is the connected network, or has a signal at least as strong as
/// every access point with its SSID.
pub open spec fn keeps_strongest(aps: Seq<ScannedView>, nets: Seq<NetworkView>) -> bool {
    forall|i: int, k: int|
        0 <= i < nets.len() && 0 <= k < aps.len() && (#[trigger] aps[k]).info.ssid == (
        #[trigger] nets[i]).ssid ==> nets[i].status == ConnectionStatus::Connected
            || nets[i].signal_strength >= aps[k].info.strength
}

proof fn lemma_strongest_step(
    aps: Seq<ScannedView>,
    prev: Seq<NetworkView>,
    active: Option<Seq<char>>,
    saved: Map<Seq<char>, Seq<char>>,
)
    requires
        aps.len() > 0,
        keeps_strongest(aps.drop_last(), prev),
        covers_ssids(aps.drop_last(), prev),
        ssids_distinct(prev),
    ensures
        keeps_strongest(aps, merge_step(prev, network_for(aps.last(), active, saved))),
{
    let prev_aps = aps.drop_last();
    let n = network_for(aps.last(), active, saved);
    let cur = merge_step(prev, n);
    lemma_ssid_index(prev, n.ssid);
    let x = ssid_index(prev, n.ssid);
    assert forall|i: int, k: int|
        0 <= i < cur.len() && 0 <= k < aps.len() && (#[trigger] aps[k]).info.ssid == (
        #[trigger] cur[i]).ssid implies cur[i].status == ConnectionStatus::Connected
        || cur[i].signal_strength >= aps[k].info.strength by {
        if k < aps.len() - 1 {
            assert(prev_aps[k] == aps[k]);
            if x >= 0 && i == x {
                if cur[i] == n && n != prev[i] {
                    assert(prev[i].status != ConnectionStatus::Connected);
                    assert(prev[i].signal_strength >= prev_aps[k].info.strength);
                } else {
                    assert(cur[i] == prev[i]);
                }
            } else if i < prev.len() {
                assert(cur[i] == prev[i]);
            } else {
                assert(cur[i] == n);
                assert(has_ssid(prev, prev_aps[k].info.ssid));
                let j = choose|j: int| 0 <= j < prev.len() && #[trigger] prev[j].ssid == prev_aps[k].info.ssid;
                assert(prev[j].ssid != n.ssid);
            }
        } else {
            assert(aps[k] == aps.last());
            if x >= 0 && i == x {
            } else if i < prev.len() {
                assert(cur[i] == prev[i]);
                if x >= 0 {
                    assert(prev[x].ssid == n.ssid);
                    assert(prev[i].ssid == n.ssid);
                    if i < x {
                        assert(prev[i].ssid != prev[x].ssid);
                    } else {
                        assert(prev[x].ssid != prev[i].ssid);
                    }
                }
            } else {
                assert(cur[i] == n);
            }
        }
    }
}

/// The row kept for an SSID is the connected network, or has a signal at
/// least as strong as every scanned access point with that SSID.
pub proof fn lemma_merged_keeps_strongest(
    aps: Seq<ScannedView>,
    active: Option<Seq<char>>,
    saved: Map<Seq<char>, Seq<char>>,
)
    ensures
        keeps_strongest(aps, merged(aps, active, saved)),
    decreases aps.len(),
{
    reveal(merged);
    if aps.len() > 0 {
        lemma_merged_keeps_strongest(aps.drop_last(), active, saved);
        lemma_merged_covers_scan(aps.drop_last(), active, saved);
        lemma_merged_ssids_distinct(aps.drop_last(), active, saved);
        lemma_strongest_step(aps, merged(aps.drop_last(), active, saved), active, saved);
    }
}

/// Connected rows first, then connecting, known, and the others; each group
/// from strongest to weakest signal.
pub open spec fn ordered_for_display(out: Seq<NetworkView>) -> bool {
    &&& forall|i: int, j: int|
        0 <= i < j < out.len() ==> status_rank((#[trigger] out[i]).status) <= status_rank(
            (#[trigger] out[j]).status,
        )
    &&& forall|i: int, j: int|
        0 <= i < j < out.len() && (#[trigger] out[i]).status == (#[trigger] out[j]).status
            ==> out[i].signal_strength >= out[j].signal_strength
}

/// Every row of `out` is a row of `inp`.
pub open spec fn rows_among(inp: Seq<NetworkView>, out: Seq<NetworkView>) -> bool {
    forall|i: int| 0 <= i < out.len() ==> inp.contains(#[trigger] out[i])
}

/// The ordered list is a rearrangement of the merged rows: connected rows
/// first, then known rows, then the others, each group by signal strength
/// from strongest to weakest, and still one row per SSID.
pub proof fn lemma_network_list_order(inp: Seq<NetworkView>, out: Seq<NetworkView>)
    requires
        stably_sorted(inp, out),
        ssids_distinct(inp),
    ensures
        out.len() == inp.len(),
        ordered_for_display(out),
        ssids_distinct(out),
        rows_among(inp, out),
{
    let idx = choose|idx: Seq<int>| stable_sort_witness(inp, out, idx);
    assert forall|i: int, j: int| 0 <= i < j < out.len() implies status_rank(
        (#[trigger] out[i]).status,
    ) <= status_rank((#[trigger] out[j]).status) && (out[i].status == out[j].status
        ==> out[i].signal_strength >= out[j].signal_strength) by {
        assert(sort_key(out[i]) <= sort_key(out[j]));
    }
    assert forall|i: int, j: int| 0 <= i < j < out.len() implies #[trigger] out[i].ssid
        != #[trigger] out[j].ssid by {
        assert(idx[i] != idx[j]);
        assert(out[i] == inp[idx[i]] && out[j] == inp[idx[j]]);
        if idx[i] < idx[j] {
            assert(inp[idx[i]].ssid != inp[idx[j]].ssid);
        } else {
            assert(inp[idx[j]].ssid != inp[idx[i]].ssid);
        }
    }
    assert forall|i: int| 0 <= i < out.len() implies inp.contains(#[trigger] out[i]) by {
        let k = idx[i];
        assert(0 <= k < inp.len());
        assert(out[i] == inp[k]);
    }
}

/// The network list that `build_network_list` returns shows every scanned
/// SSID exactly once, each row being the row of a scanned access point, with
/// connected rows first, known rows next, and each group from strongest to
/// weakest signal.
pub proof fn lemma_network_list(
    aps: Seq<ScannedView>,
    active: Option<Seq<char>>,
    saved: Map<Seq<char>, Seq<char>>,
    out: Seq<NetworkView>,
)
    requires
        stably_sorted(merged(aps, active, saved), out),
    ensures
        ssids_distinct(out),
        covers_ssids(aps, out),
        rows_from_scan(aps, out, active, saved),
        ordered_for_display(out),
{
    let m = merged(aps, active, saved);
    lemma_merged_ssids_distinct(aps, active, saved);
    lemma_merged_covers_scan(aps, active, saved);
    lemma_network_list_order(m, out);
    let idx = choose|idx: Seq<int>| stable_sort_witness(m, out, idx);
    lemma_sorted_covers(aps, m, out, idx);
    lemma_sorted_rows(aps, m, out, idx, active, saved);
}

proof fn lemma_sorted_covers(
    aps: Seq<ScannedView>,
    m: Seq<NetworkView>,
    out: Seq<NetworkView>,
    idx: Seq<int>,
)
    requires
        stable_sort_witness(m, out, idx),
        covers_ssids(aps, m),
    ensures
        covers_ssids(aps, out),
{
    assert forall|k: int| 0 <= k < aps.len() implies has_ssid(out, (#[trigger] aps[k]).info.ssid) by {
        assert(has_ssid(m, aps[k].info.ssid));
        let j = choose|j: int| 0 <= j < m.len() && #[trigger] m[j].ssid == aps[k].info.ssid;
        lemma_witness_onto(m, out, idx, j);
        let i = choose|i: int| 0 <= i < out.len() && idx[i] == j;
        assert(out[i] == m[idx[i]]);
    }
}

proof fn lemma_sorted_rows(
    aps: Seq<ScannedView>,
    m: Seq<NetworkView>,
    out: Seq<NetworkView>,
    idx: Seq<int>,
    active: Option<Seq<char>>,
    saved: Map<Seq<char>, Seq<char>>,
)
    requires
        stable_sort_witness(m, out, idx),
        rows_from_scan(aps, m, active, saved),
    ensures
        rows_from_scan(aps, out, active, saved),
{
    assert forall|i: int| 0 <= i < out.len() implies row_of_some_ap(aps, #[trigger] out[i], active, saved) by {
        assert(out[i] == m[idx[i]]);
        assert(0 <= idx[i] < m.len());
        assert(row_of_some_ap(aps, m[idx[i]], active, saved));
    }
}

/// Distinct positions of `0..n`, `n` of them, take every value of `0..n`.
proof fn lemma_witness_onto(inp: Seq<NetworkView>, out: Seq<NetworkView>, idx: Seq<int>, j: int)
    requires
        stable_sort_witness(inp, out, idx),
        0 <= j < inp.len(),
    ensures
        exists|i: int| 0 <= i < out.len() && idx[i] == j,
{
    if forall|i: int| 0 <= i < out.len() ==> idx[i] != j {
        // the values of idx lie in 0..n without j: at most n - 1 distinct values
        let s = Set::new(|v: int| 0 <= v < inp.len() && v != j);
        let img = Set::new(|v: int| exists|i: int| 0 <= i < out.len() && idx[i] == v);
        assert(img.subset_of(s));
        vstd::set_lib::lemma_int_range(0, inp.len() as int);
        assert(s =~= vstd::set_lib::set_int_range(0, inp.len() as int).remove(j));
        lemma_injective_image_len(idx, out.len() as int);
        vstd::set_lib::lemma_len_subset(img, s);
        assert(false);
    }
}

/// The values of an injective sequence of length `n` form a set of size `n`.
proof fn lemma_injective_image_len(idx: Seq<int>, n: int)
    requires
        0 <= n <= idx.len(),
        forall|i: int, j: int| 0 <= i < j < n ==> #[trigger] idx[i] != #[trigger] idx[j],
    ensures
        Set::new(|v: int| exists|i: int| 0 <= i < n && idx[i] == v).finite(),
        Set::new(|v: int| exists|i: int| 0 <= i < n && idx[i] == v).len() == n,
    decreases n,
{
    let img = Set::new(|v: int| exists|i: int| 0 <= i < n && idx[i] == v);
    if n == 0 {
        assert(img =~= Set::empty());
    } else {
        lemma_injective_image_len(idx, n - 1);
        let prev = Set::new(|v: int| exists|i: int| 0 <= i < n - 1 && idx[i] == v);
        assert(img =~= prev.insert(idx[n - 1]));
        assert(!prev.contains(idx[n - 1]));
    }
}

/// In a list built from a scan, a row shown connected is the active access
/// point, a row shown known has a saved profile, which it carries, and a row
/// shown disconnected is neither; when the scan lists each access point
/// once, at most one row is shown connected.
pub proof fn lemma_network_status(
    aps: Seq<ScannedView>,
    active: Option<Seq<char>>,
    saved: Map<Seq<char>, Seq<char>>,
    out: Seq<NetworkView>,
)
    requires
        rows_from_scan(aps, out, active, saved),
        ssids_distinct(out),
    ensures
        forall|i: int|
            0 <= i < out.len() ==> ((#[trigger] out[i]).status == ConnectionStatus::Connected
                <==> active == Some(out[i].ap_path)),
        forall|i: int|
            0 <= i < out.len() && (#[trigger] out[i]).status == ConnectionStatus::Known ==> saved.contains_key(
                out[i].ssid,
            ) && out[i].saved_connection_path == Some(saved[out[i].ssid]),
        forall|i: int|
            0 <= i < out.len() && (#[trigger] out[i]).status == ConnectionStatus::Disconnected
                ==> active != Some(out[i].ap_path) && !saved.contains_key(out[i].ssid),
        (forall|a: int, b: int| 0 <= a < b < aps.len() ==> (#[trigger] aps[a]).path != (#[trigger] aps[b]).path)
            ==> forall|i: int, j: int|
            0 <= i < j < out.len() && (#[trigger] out[i]).status == ConnectionStatus::Connected
                ==> (#[trigger] out[j]).status != ConnectionStatus::Connected,
{
    assert forall|i: int| 0 <= i < out.len() implies ((#[trigger] out[i]).status
        == ConnectionStatus::Connected <==> active == Some(out[i].ap_path)) && (out[i].status
        == ConnectionStatus::Known ==> saved.contains_key(out[i].ssid) && out[i].saved_connection_path
        == Some(saved[out[i].ssid])) && (out[i].status == ConnectionStatus::Disconnected ==> active
        != Some(out[i].ap_path) && !saved.contains_key(out[i].ssid)) by {
        assert(row_of_some_ap(aps, out[i], active, saved));
    }
    if forall|a: int, b: int| 0 <= a < b < aps.len() ==> (#[trigger] aps[a]).path != (#[trigger] aps[b]).path {
        assert forall|i: int, j: int|
            0 <= i < j < out.len() && (#[trigger] out[i]).status == ConnectionStatus::Connected
                implies (#[trigger] out[j]).status != ConnectionStatus::Connected by {
            if out[j].status == ConnectionStatus::Connected {
                assert(row_of_some_ap(aps, out[i], active, saved));
                assert(row_of_some_ap(aps, out[j], active, saved));
                let a = choose|k: int| 0 <= k < aps.len() && out[i] == network_for(#[trigger] aps[k], active, saved);
                let b = choose|k: int| 0 <= k < aps.len() && out[j] == network_for(#[trigger] aps[k], active, saved);
                assert(aps[a].path == aps[b].path);
                assert(out[i].ssid != out[j].ssid);
                if a < b {
                } else if b < a {
                } else {
                    assert(out[i] == out[j]);
                }
            }
        }
    }
}


/// Every row of the network list carries the saved profile of its SSID when
/// one exists, whatever the row's status (connected rows included), and no
/// profile when none is saved; the same holds of the merged rows before
/// they are ordered.
pub proof fn lemma_rows_carry_saved_profile(
    aps: Seq<ScannedView>,
    active: Option<Seq<char>>,
    saved: Map<Seq<char>, Seq<char>>,
    out: Seq<NetworkView>,
)
    requires
        stably_sorted(merged(aps, active, saved), out),
    ensures
        forall|i: int|
            0 <= i < out.len() ==> (saved.contains_key((#[trigger] out[i]).ssid)
                ==> out[i].saved_connection_path == Some(saved[out[i].ssid])) && (!saved.contains_key(
                out[i].ssid,
            ) ==> out[i].saved_connection_path is None),
        forall|i: int|
            0 <= i < merged(aps, active, saved).len() ==> (saved.contains_key(
                (#[trigger] merged(aps, active, saved)[i]).ssid,
            ) ==> merged(aps, active, saved)[i].saved_connection_path == Some(
                saved[merged(aps, active, saved)[i].ssid],
            )) && (!saved.contains_key(merged(aps, active, saved)[i].ssid)
                ==> merged(aps, active, saved)[i].saved_connection_path is None),
{
    let m = merged(aps, active, saved);
    lemma_network_list(aps, active, saved, out);
    lemma_merged_covers_scan(aps, active, saved);
    assert forall|i: int| 0 <= i < out.len() implies (saved.contains_key((#[trigger] out[i]).ssid)
        ==> out[i].saved_connection_path == Some(saved[out[i].ssid])) && (!saved.contains_key(
        out[i].ssid,
    ) ==> out[i].saved_connection_path is None) by {
        assert(row_of_some_ap(aps, out[i], active, saved));
    }
    assert forall|i: int| 0 <= i < m.len() implies (saved.contains_key((#[trigger] m[i]).ssid)
        ==> m[i].saved_connection_path == Some(saved[m[i].ssid])) && (!saved.contains_key(m[i].ssid)
        ==> m[i].saved_connection_path is None) by {
        assert(row_of_some_ap(aps, m[i], active, saved));
    }
}

} // verus!
