//! What a request is told before anything is relayed: the path it names, the answer of
//! the root path, and what an upgrade confirms.

use vstd::prelude::*;
use crate::mesh_serve::{query_of, serve_start, RelayRequest, ServeAction};
use crate::mesh_wire::{MeshFraming, MeshProtocol};
use crate::resume_headers::{ResumeContext, ResumeResponseEcho};
use crate::text::{chars_of, ends_in, ends_with};

verus! {

/// A path without the token behind its last slash; the whole path where it does not
/// end that way.
pub open spec fn base_path(full: Seq<char>, token: Seq<char>) -> Seq<char> {
    let rest = full.len() - token.len();
    if rest >= 1 && ends_in(full, token) && full[rest - 1] == '/' {
        full.take(rest - 1)
    } else {
        full
    }
}

/// Cuts the token, and the slash before it, off a path.
pub fn combined_base_path(full: &str, token: &str) -> (base: String)
    ensures
        base@ == base_path(full@, token@),
{
    let path = chars_of(full);
    let last = chars_of(token);
    if last.len() < path.len() && ends_with(&path, &last) {
        let rest: usize = path.len() - last.len();
        if path[rest - 1] == '/' {
            let cut = vstd::string::StrSliceExecFns::substring_char(full, 0, rest - 1);
            assert(full@.subrange(0, rest - 1) =~= full@.take(rest - 1));
            return cut.to_owned();
        }
    }
    full.to_owned()
}

/// How the root path answers.
#[derive(Clone, Copy, Debug, PartialEq, Eq, Structural)]
pub enum RootAuth {
    NotFound,
    Forbidden,
    Success,
    /// Ask for a password; the client has failed this many times.
    Challenge { failed_attempts: u32 },
}

/// The password a request carries.
#[derive(Clone, Copy, Debug, PartialEq, Eq, Structural)]
pub enum RootPassword {
    Absent,
    /// It is the password of some user.
    Matches,
    Wrong,
}

/// Answers a request of the root path. `failed_attempts` is how often the client has
/// failed before.
pub fn root_http_auth(
    enabled: bool,
    get_or_head: bool,
    failed_attempts: u32,
    max_failures: u32,
    password: RootPassword,
) -> (answer: RootAuth)
    ensures
        answer == if !enabled || !get_or_head {
            RootAuth::NotFound
        } else if failed_attempts >= max_failures {
            RootAuth::Forbidden
        } else {
            match password {
                RootPassword::Matches => RootAuth::Success,
                RootPassword::Absent => RootAuth::Challenge { failed_attempts },
                RootPassword::Wrong => if failed_attempts + 1 >= max_failures {
                    RootAuth::Forbidden
                } else {
                    RootAuth::Challenge { failed_attempts: (failed_attempts + 1) as u32 }
                },
            }
        },
{
    if !enabled || !get_or_head {
        return RootAuth::NotFound;
    }
    if failed_attempts >= max_failures {
        return RootAuth::Forbidden;
    }
    match password {
        RootPassword::Matches => RootAuth::Success,
        RootPassword::Absent => RootAuth::Challenge { failed_attempts },
        RootPassword::Wrong => {
            let failed: u32 = failed_attempts.saturating_add(1);
            if failed >= max_failures {
                RootAuth::Forbidden
            } else {
                RootAuth::Challenge { failed_attempts: failed }
            }
        },
    }
}

/// What an upgrade is for.
#[derive(Clone, Copy, Debug, PartialEq, Eq, Structural)]
pub enum UpgradeLeg {
    /// A Shadowsocks byte stream.
    Tcp,
    /// Shadowsocks datagrams.
    Udp,
    Vless,
}

/// How an upgrade is carried out.
#[derive(Clone, Copy, Debug)]
pub struct UpgradePlan {
    /// What the response tells the client about its session.
    pub echo: ResumeResponseEcho,
    /// The carrier writes every frame at once, without a buffer.
    pub unbuffered: bool,
}

/// What the response of an upgrade confirms. Replays are a matter of byte streams, so a
/// datagram carrier is told its session's id and nothing else.
pub open spec fn upgrade_echo(leg: UpgradeLeg, resume: ResumeContext) -> ResumeResponseEcho {
    let streams = leg != UpgradeLeg::Udp;
    ResumeResponseEcho {
        session_id: resume.issued_session_id,
        ack_prefix: streams && resume.ack_prefix_requested,
        symmetric_replay: streams && resume.symmetric_replay_requested,
    }
}

/// Plans an upgrade.
pub fn plan_upgrade(leg: UpgradeLeg, resume: &ResumeContext) -> (plan: UpgradePlan)
    ensures
        plan.echo == upgrade_echo(leg, *resume),
        plan.unbuffered == (leg == UpgradeLeg::Udp),
{
    match leg {
        UpgradeLeg::Udp => UpgradePlan { echo: resume.session_echo(), unbuffered: true },
        _ => UpgradePlan { echo: resume.response_echo(), unbuffered: false },
    }
}

/// The terms on which an edge asks for a relay. What a VLESS client wants is known only
/// once its first frame is read, so its relay is asked for as a byte stream.
pub open spec fn terms_of(leg: UpgradeLeg) -> RelayRequest {
    RelayRequest {
        framing: if leg == UpgradeLeg::Udp {
            MeshFraming::Udp
        } else {
            MeshFraming::Tcp
        },
        protocol: if leg == UpgradeLeg::Vless {
            MeshProtocol::Vless
        } else {
            MeshProtocol::Ss
        },
    }
}

/// The framing and the protocol that a leg's relay is asked for with.
pub fn relay_terms(leg: UpgradeLeg) -> (terms: RelayRequest)
    ensures
        terms == terms_of(leg),
{
    match leg {
        UpgradeLeg::Tcp => RelayRequest { framing: MeshFraming::Tcp, protocol: MeshProtocol::Ss },
        UpgradeLeg::Udp => RelayRequest { framing: MeshFraming::Udp, protocol: MeshProtocol::Ss },
        UpgradeLeg::Vless => RelayRequest {
            framing: MeshFraming::Tcp,
            protocol: MeshProtocol::Vless,
        },
    }
}

/// No edge asks for a relay that a home has no question for: every leg's relay begins
/// with the home looking for its park.
pub proof fn law_every_leg_can_be_relayed(leg: UpgradeLeg)
    ensures
        query_of(terms_of(leg)) is Some,
        serve_start(terms_of(leg)).1 == ServeAction::Probe(query_of(terms_of(leg))->0),
{
}

/// A path with a token behind it is the path, a slash and the token: cutting the token off
/// gives back the path, whatever the two are, and a path that does not end so is left as
/// it is.
pub proof fn law_a_token_comes_off_its_path(base: Seq<char>, token: Seq<char>, full: Seq<char>)
    ensures
        base_path(base + seq!['/'] + token, token) == base,
        base_path(full, token) == full || full == base_path(full, token) + seq!['/'] + token,
{
    let whole = base + seq!['/'] + token;
    let rest = whole.len() - token.len();
    assert(whole.subrange(rest, rest + token.len()) =~= token);
    assert(whole[rest - 1] == '/');
    assert(whole.take(rest - 1) =~= base);
    let at = full.len() - token.len();
    if at >= 1 && ends_in(full, token) && full[at - 1] == '/' {
        assert(full.subrange(at, at + token.len()) == token);
        assert(full =~= full.take(at - 1) + seq!['/'] + token);
    }
}

/// An upgrade confirms what was granted: the id on every leg, and what only a byte stream
/// has exactly on a leg that carries one.
pub proof fn law_an_upgrade_confirms_what_was_granted(leg: UpgradeLeg, resume: ResumeContext)
    ensures
        upgrade_echo(leg, resume).session_id == resume.issued_session_id,
        upgrade_echo(leg, resume).ack_prefix <==> resume.ack_prefix_requested && (leg
            == UpgradeLeg::Tcp || leg == UpgradeLeg::Vless),
        upgrade_echo(leg, resume).symmetric_replay <==> resume.symmetric_replay_requested && (leg
            == UpgradeLeg::Tcp || leg == UpgradeLeg::Vless),
{
}

/// A leg's relay is asked for in the leg's own protocol, and with datagram framing exactly
/// where the leg carries datagrams.
pub proof fn law_a_leg_is_relayed_as_what_it_is(leg: UpgradeLeg)
    ensures
        terms_of(leg).framing == MeshFraming::Udp <==> leg == UpgradeLeg::Udp,
        terms_of(leg).protocol == MeshProtocol::Vless <==> leg == UpgradeLeg::Vless,
{
}

/// The root path is open to nobody it should not be: it answers at all exactly where it is
/// switched on and asked with a read, it lets in exactly a client whose password is some
/// user's and who has not failed too often, and a client that has is shut out whatever it
/// sends. Only a wrong password counts as a failure.
pub proof fn law_only_a_known_password_opens_the_root_path(
    enabled: bool,
    get_or_head: bool,
    failed_attempts: u32,
    max_failures: u32,
    password: RootPassword,
    answer: RootAuth,
    failed: u32,
)
    requires
        call_ensures(
            root_http_auth,
            (enabled, get_or_head, failed_attempts, max_failures, password),
            answer,
        ),
    ensures
        ({
            let asked = enabled && get_or_head;
            let may_try = asked && failed_attempts < max_failures;
            &&& answer == RootAuth::NotFound <==> !asked
            &&& answer == RootAuth::Success <==> may_try && password == RootPassword::Matches
            &&& answer == RootAuth::Forbidden <==> asked && (failed_attempts >= max_failures || password
                == RootPassword::Wrong && failed_attempts + 1 >= max_failures)
            &&& answer == (RootAuth::Challenge { failed_attempts: failed }) <==> may_try && {
                ||| password == RootPassword::Absent && failed == failed_attempts
                ||| password == RootPassword::Wrong && failed == failed_attempts + 1 && failed
                    < max_failures
            }
        }),
{
}

/// A datagram carrier writes every frame at once, and no other does.
pub proof fn law_datagrams_are_written_at_once(leg: UpgradeLeg, resume: ResumeContext, plan: UpgradePlan)
    requires
        call_ensures(plan_upgrade, (leg, &resume), plan),
    ensures
        plan.unbuffered <==> leg == UpgradeLeg::Udp,
        plan.echo.session_id == resume.issued_session_id,
        plan.echo.ack_prefix ==> resume.ack_prefix_requested,
        plan.echo.symmetric_replay ==> resume.symmetric_replay_requested,
{
}

} // verus!
