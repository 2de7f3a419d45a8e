use vstd::prelude::*;
use crate::config::{ConfigView, ShaperConfig};

verus! {

/// One privileged shell command, with the message reported when it fails.
pub struct Step {
    /// Shell command line, run as root.
    pub command: String,
    /// Message naming the step, reported if the command exits unsuccessfully.
    pub failure: String,
}

/// Mathematical model of a [`Step`].
pub ghost struct StepView {
    pub command: Seq<char>,
    pub failure: Seq<char>,
}

impl View for Step {
    type V = StepView;

    open spec fn view(&self) -> StepView {
        StepView { command: self.command@, failure: self.failure@ }
    }
}

/// The model of each step of a plan, in order.
pub open spec fn steps_view(v: Seq<Step>) -> Seq<StepView> {
    v.map_values(|s: Step| s@)
}

// ---------------------------------------------------------------------------
// Queueing tree (tc)
// ---------------------------------------------------------------------------

/// `tc class add` for an HTB class whose rate and ceiling are both `rate`.
pub open spec fn class_text(
    dev: Seq<char>,
    parent: Seq<char>,
    class_id: Seq<char>,
    rate: Seq<char>,
    prio: Seq<char>,
) -> Seq<char> {
    "tc class add dev "@ + dev + " parent "@ + parent + " classid "@ + class_id + " htb rate "@
        + rate + " ceil "@ + rate + " prio "@ + prio
}

/// Root HTB discipline whose unclassified traffic goes to class 10.
pub open spec fn qdisc_step(c: ConfigView) -> StepView {
    StepView {
        command: "tc qdisc add dev "@ + c.interface + " root handle "@ + c.root_handle
            + " htb default 10"@,
        failure: "Error while adding QDISC"@,
    }
}

/// Default-rate class under the root, priority 0.
pub open spec fn default_class_step(c: ConfigView) -> StepView {
    StepView {
        command: class_text(c.interface, c.root_handle, c.class_id, c.default_rate, "0"@),
        failure: "Error while adding CLASS"@,
    }
}

/// VIP-rate class under the VIP root, priority 1.
pub open spec fn vip_class_step(c: ConfigView) -> StepView {
    StepView {
        command: class_text(c.interface, c.vip_root_handle, c.vip_class_id, c.vip_rate, "1"@),
        failure: "Error while adding CLASS VIP"@,
    }
}

/// Filter sending packets with firewall mark 5 into the VIP class.
pub open spec fn vip_filter_step(c: ConfigView) -> StepView {
    StepView {
        command: "tc filter add dev "@ + c.interface + " parent "@ + c.vip_root_handle
            + " prio 1 handle 5 fw flowid "@ + c.vip_class_id,
        failure: "Error while adding FILTER VIP"@,
    }
}

/// The queueing phase: discipline, default class, VIP class, VIP filter.
pub open spec fn tc_plan(c: ConfigView) -> Seq<StepView> {
    seq![qdisc_step(c), default_class_step(c), vip_class_step(c), vip_filter_step(c)]
}

fn class_command(
    dev: &String,
    parent: &String,
    class_id: &String,
    rate: &String,
    prio: &str,
) -> (r: String)
    ensures
        r@ == class_text(dev@, parent@, class_id@, rate@, prio@),
{
    let mut r = String::from_str("tc class add dev ");
    r.append(dev.as_str());
    r.append(" parent ");
    r.append(parent.as_str());
    r.append(" classid ");
    r.append(class_id.as_str());
    r.append(" htb rate ");
    r.append(rate.as_str());
    r.append(" ceil ");
    r.append(rate.as_str());
    r.append(" prio ");
    r.append(prio);
    r
}

/// The commands that build the shaping tree on `cfg.interface`, in the order
/// they must run.
pub fn setup_tc(cfg: &ShaperConfig) -> (r: Vec<Step>)
    ensures
        steps_view(r@) == tc_plan(cfg@),
{
    let c = Ghost(cfg@);
    let mut r: Vec<Step> = Vec::new();

    let mut cmd = String::from_str("tc qdisc add dev ");
    cmd.append(cfg.interface.as_str());
    cmd.append(" root handle ");
    cmd.append(cfg.root_handle.as_str());
    cmd.append(" htb default 10");
    r.push(Step { command: cmd, failure: String::from_str("Error while adding QDISC") });

    let cmd = class_command(
        &cfg.interface,
        &cfg.root_handle,
        &cfg.class_id,
        &cfg.default_rate,
        "0",
    );
    r.push(Step { command: cmd, failure: String::from_str("Error while adding CLASS") });

    let cmd = class_command(
        &cfg.interface,
        &cfg.vip_root_handle,
        &cfg.vip_class_id,
        &cfg.vip_rate,
        "1",
    );
    r.push(Step { command: cmd, failure: String::from_str("Error while adding CLASS VIP") });

    let mut cmd = String::from_str("tc filter add dev ");
    cmd.append(cfg.interface.as_str());
    cmd.append(" parent ");
    cmd.append(cfg.vip_root_handle.as_str());
    cmd.append(" prio 1 handle 5 fw flowid ");
    cmd.append(cfg.vip_class_id.as_str());
    r.push(Step { command: cmd, failure: String::from_str("Error while adding FILTER VIP") });

    assert(steps_view(r@) =~= tc_plan(c@));
    r
}

// ---------------------------------------------------------------------------
// Packet marking (iptables, mangle table)
// ---------------------------------------------------------------------------

/// A step whose command and message are fixed text.
pub open spec fn fixed_step(command: Seq<char>, failure: Seq<char>) -> StepView {
    StepView { command, failure }
}

/// Steps that do not depend on the VIP list: two chains, two hooks on
/// `dev`, and the default mark 1 for the local subnet in each direction.
/// The chain named `shaper-in` is hooked at POSTROUTING and `shaper-out` at
/// PREROUTING.
pub open spec fn fixed_marking_plan(dev: Seq<char>) -> Seq<StepView> {
    seq![
        fixed_step("iptables -t mangle -N shaper-out"@, "Error while adding shaper-out"@),
        fixed_step("iptables -t mangle -N shaper-in"@, "Error while adding shaper-in"@),
        fixed_step(
            "iptables -t mangle -I POSTROUTING -o "@ + dev + " -j shaper-in"@,
            "Error while adding POSTROUTING"@,
        ),
        fixed_step(
            "iptables -t mangle -I PREROUTING -i "@ + dev + " -j shaper-out"@,
            "Error while adding PREROUTING"@,
        ),
        fixed_step(
            "iptables -t mangle -A shaper-out -s 192.168.1.0/24 -j MARK --set-mark 1"@,
            "Error while marking out 1"@,
        ),
        fixed_step(
            "iptables -t mangle -A shaper-in -d 192.168.1.0/24 -j MARK --set-mark 1"@,
            "Error while marking 1"@,
        ),
    ]
}

/// VIP mark 5 for traffic from `ip`, in the `shaper-out` chain.
pub open spec fn vip_out_step(ip: Seq<char>) -> StepView {
    StepView {
        command: "iptables -t mangle -A shaper-out -s "@ + ip + " -j MARK --set-mark 5"@,
        failure: "Error while marking out 5 for ip = "@ + ip,
    }
}

/// VIP mark 5 for traffic to `ip`, in the `shaper-in` chain.
pub open spec fn vip_in_step(ip: Seq<char>) -> StepView {
    StepView {
        command: "iptables -t mangle -A shaper-in -d "@ + ip + " -j MARK --set-mark 5"@,
        failure: "Error while marking in 5 for ip = "@ + ip,
    }
}

/// Two steps per VIP address, in list order: outgoing mark, then incoming.
pub open spec fn vip_marking_plan(ips: Seq<Seq<char>>) -> Seq<StepView>
    decreases ips.len(),
{
    if ips.len() == 0 {
        seq![]
    } else {
        vip_marking_plan(ips.drop_last()) + seq![vip_out_step(ips.last()), vip_in_step(ips.last())]
    }
}

/// The marking phase: the fixed steps, then the per-address steps.
pub open spec fn iptables_plan(c: ConfigView) -> Seq<StepView> {
    fixed_marking_plan(c.interface) + vip_marking_plan(c.vip_ips)
}

fn fixed(command: &str, failure: &str) -> (r: Step)
    ensures
        r@ == fixed_step(command@, failure@),
{
    Step { command: String::from_str(command), failure: String::from_str(failure) }
}

/// The commands that create and fill the marking chains for
/// `cfg.interface` and `cfg.vip_ips`, in the order they must run.
pub fn setup_iptables(cfg: &ShaperConfig) -> (r: Vec<Step>)
    ensures
        steps_view(r@) == iptables_plan(cfg@),
{
    let c = Ghost(cfg@);
    let mut r: Vec<Step> = Vec::new();
    r.push(fixed("iptables -t mangle -N shaper-out", "Error while adding shaper-out"));
    r.push(fixed("iptables -t mangle -N shaper-in", "Error while adding shaper-in"));

    let mut cmd = String::from_str("iptables -t mangle -I POSTROUTING -o ");
    cmd.append(cfg.interface.as_str());
    cmd.append(" -j shaper-in");
    r.push(Step { command: cmd, failure: String::from_str("Error while adding POSTROUTING") });

    let mut cmd = String::from_str("iptables -t mangle -I PREROUTING -i ");
    cmd.append(cfg.interface.as_str());
    cmd.append(" -j shaper-out");
    r.push(Step { command: cmd, failure: String::from_str("Error while adding PREROUTING") });

    r.push(
        fixed(
            "iptables -t mangle -A shaper-out -s 192.168.1.0/24 -j MARK --set-mark 1",
            "Error while marking out 1",
        ),
    );
    r.push(
        fixed(
            "iptables -t mangle -A shaper-in -d 192.168.1.0/24 -j MARK --set-mark 1",
            "Error while marking 1",
        ),
    );
    assert(steps_view(r@) =~= fixed_marking_plan(c@.interface));

    let n = cfg.vip_ips.len();
    let mut i: usize = 0;
    while i < n
        invariant
            n == cfg.vip_ips@.len(),
            c@ == cfg@,
            i <= n,
            steps_view(r@) == fixed_marking_plan(c@.interface) + vip_marking_plan(
                c@.vip_ips.take(i as int),
            ),
        decreases n - i,
    {
        let ip = &cfg.vip_ips[i];
        let ghost before = r@;

        let mut cmd = String::from_str("iptables -t mangle -A shaper-out -s ");
        cmd.append(ip.as_str());
        cmd.append(" -j MARK --set-mark 5");
        let mut failure = String::from_str("Error while marking out 5 for ip = ");
        failure.append(ip.as_str());
        r.push(Step { command: cmd, failure });

        let mut cmd = String::from_str("iptables -t mangle -A shaper-in -d ");
        cmd.append(ip.as_str());
        cmd.append(" -j MARK --set-mark 5");
        let mut failure = String::from_str("Error while marking in 5 for ip = ");
        failure.append(ip.as_str());
        r.push(Step { command: cmd, failure });

        proof {
            let ips = c@.vip_ips;
            assert(ips.take(i + 1).drop_last() =~= ips.take(i as int));
            assert(ips.take(i + 1).last() == ip@);
            assert(steps_view(r@) =~= steps_view(before) + seq![
                vip_out_step(ip@),
                vip_in_step(ip@),
            ]);
        }
        i = i + 1;
    }
    assert(c@.vip_ips.take(n as int) =~= c@.vip_ips);
    r
}

/// Both phases in the order they run: the queueing tree first, since the
/// marking rules feed its VIP filter.
pub fn full_plan(cfg: &ShaperConfig) -> (r: Vec<Step>)
    ensures
        steps_view(r@) == tc_plan(cfg@) + iptables_plan(cfg@),
{
    let mut r = setup_tc(cfg);
    let mut rest = setup_iptables(cfg);
    r.append(&mut rest);
    assert(steps_view(r@) =~= tc_plan(cfg@) + iptables_plan(cfg@));
    r
}

// ---------------------------------------------------------------------------
// Shape of the plans
// ---------------------------------------------------------------------------

/// The queueing phase is exactly four steps: discipline, default class, VIP
/// class, VIP filter, in that order.
pub proof fn lemma_tc_plan_shape(c: ConfigView)
    ensures
        tc_plan(c).len() == 4,
        tc_plan(c)[0] == qdisc_step(c),
        tc_plan(c)[1] == default_class_step(c),
        tc_plan(c)[2] == vip_class_step(c),
        tc_plan(c)[3] == vip_filter_step(c),
{
}

/// Each VIP address contributes two steps, outgoing then incoming, in list
/// order.
pub proof fn lemma_vip_marking_plan_shape(ips: Seq<Seq<char>>)
    ensures
        vip_marking_plan(ips).len() == 2 * ips.len(),
        forall|k: int|
            0 <= k < ips.len() ==> {
                &&& #[trigger] vip_marking_plan(ips)[2 * k] == vip_out_step(ips[k])
                &&& vip_marking_plan(ips)[2 * k + 1] == vip_in_step(ips[k])
            },
    decreases ips.len(),
{
    if ips.len() > 0 {
        let init = ips.drop_last();
        lemma_vip_marking_plan_shape(init);
        assert forall|k: int| 0 <= k < ips.len() implies {
            &&& #[trigger] vip_marking_plan(ips)[2 * k] == vip_out_step(ips[k])
            &&& vip_marking_plan(ips)[2 * k + 1] == vip_in_step(ips[k])
        } by {
            if k < init.len() {
                assert(init[k] == ips[k]);
            }
        }
    }
}

/// The marking phase is six fixed steps (two chains, two hooks, two subnet
/// marks) followed by two steps per VIP address: `6 + 2 * n` steps for `n`
/// addresses.
pub proof fn lemma_iptables_plan_shape(c: ConfigView)
    ensures
        iptables_plan(c).len() == 6 + 2 * c.vip_ips.len(),
        iptables_plan(c).take(6) == fixed_marking_plan(c.interface),
        forall|k: int|
            0 <= k < c.vip_ips.len() ==> {
                &&& #[trigger] iptables_plan(c)[6 + 2 * k] == vip_out_step(c.vip_ips[k])
                &&& iptables_plan(c)[7 + 2 * k] == vip_in_step(c.vip_ips[k])
            },
{
    lemma_vip_marking_plan_shape(c.vip_ips);
    let p = iptables_plan(c);
    assert(p.take(6) =~= fixed_marking_plan(c.interface));
    assert forall|k: int| 0 <= k < c.vip_ips.len() implies {
        &&& #[trigger] p[6 + 2 * k] == vip_out_step(c.vip_ips[k])
        &&& p[7 + 2 * k] == vip_in_step(c.vip_ips[k])
    } by {
        assert(p[6 + 2 * k] == vip_marking_plan(c.vip_ips)[2 * k]);
        assert(p[7 + 2 * k] == vip_marking_plan(c.vip_ips)[2 * k + 1]);
    }
}

/// With an empty VIP list the marking phase holds no per-address step: it is
/// exactly its six fixed steps.
pub proof fn lemma_iptables_plan_without_vips(c: ConfigView)
    requires
        c.vip_ips.len() == 0,
    ensures
        vip_marking_plan(c.vip_ips).len() == 0,
        iptables_plan(c) == fixed_marking_plan(c.interface),
        iptables_plan(c).len() == 6,
{
    assert(iptables_plan(c) =~= fixed_marking_plan(c.interface));
}

} // verus!
