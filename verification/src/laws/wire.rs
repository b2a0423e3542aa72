//! What travels between host and guest: devices, frames, boots, receipts, barriers.
use crate::bootstrap::{
    all_zero, bootstrap_check, device_body_of, device_bytes, magic, written_device_reads_back, Bootstrap, BootstrapError,
};
use crate::canonical::{in_key_order, member_views};
use crate::digest::sha256_of;
use crate::guest::Context as WireContext;
use crate::guest::Execute as WireExecute;
use crate::guest::Receipt as WireReceipt;
use crate::guest::State as WireState;
use crate::guest_model::{Context, Execute, Receipt, State};
use crate::guest_wire::receipt_refusal as wire_receipt_refusal;
use crate::guest_wire::{
    context_refusal, context_written, execute_read, execute_written, frame_header, frame_header_reads_back,
    frame_size_valid, peer_check, receipt_written, WireError,
};
use crate::history::{barrier_check, binding_check, covered, Barrier, Binding, Domain};
use crate::ids::{id_text, is_id_text, is_v7, OperationId};
use crate::text::byte_len;
use vstd::utf8::*;
use vstd::prelude::*;

verus! {

/// A bootstrap is accepted exactly where it is of a real generation and an end, each of
/// its three credentials is there and of at most 16 KiB, and it pins a host.
pub proof fn bootstraps_carry_whole_credentials(b: Bootstrap)
    ensures
        ({
            let named = b.version == 1 && b.generation >= 1 && b.valid_until_unix_ms >= 1;
            let credentials = 1 <= b.ca_pem@.len() && byte_len(b.ca_pem@) <= 16384 && 1 <= b.guest_cert_pem@.len()
                && byte_len(b.guest_cert_pem@) <= 16384 && 1 <= b.guest_key_pem@.len() && byte_len(b.guest_key_pem@)
                <= 16384;
            let pinned = exists|i: int| 0 <= i < 32 && #[trigger] b.host_pin@[i] != 0;
            &&& bootstrap_check(b) is Ok <==> named && credentials && pinned
            &&& !named <==> bootstrap_check(b) == Err::<(), BootstrapError>(BootstrapError::Identity)
            &&& named && !credentials <==> bootstrap_check(b) == Err::<(), BootstrapError>(BootstrapError::Credential)
            &&& named && credentials && !pinned <==> bootstrap_check(b) == Err::<(), BootstrapError>(
                BootstrapError::Peer,
            )
        }),
{
    assert(b.host_pin@.len() == 32);
    if !(exists|i: int| 0 <= i < 32 && #[trigger] b.host_pin@[i] != 0) {
        assert(all_zero(b.host_pin@));
    }
}

/// A device is the letters HDSBOOT1, the length of the body in four bytes from the
/// highest, the body, and zeros up to 128 KiB.
pub proof fn devices_are_laid_out(body: Seq<u8>)
    requires
        1 <= body.len() <= 65536,
    ensures
        ({
            let d = device_bytes(body);
            let n = body.len() as int;
            &&& d.len() == 131072
            &&& d[0] == 72 && d[1] == 68 && d[2] == 83 && d[3] == 66 && d[4] == 79 && d[5] == 79 && d[6] == 84 && d[7]
                == 49
            &&& d[8] * 16777216 + d[9] * 65536 + d[10] * 256 + d[11] == n
            &&& d.subrange(12, 12 + n) == body
            &&& forall|i: int| 12 + n <= i < 131072 ==> #[trigger] d[i] == 0
        }),
{
    written_device_reads_back(body);
    let d = device_bytes(body);
    let n = body.len() as int;
    frame_header_reads_back(n as u32);
    let h = frame_header(n as u32);
    assert(h.len() == 4);
    assert(d[8] == h[0] && d[9] == h[1] && d[10] == h[2] && d[11] == h[3]);
    assert(d[0] == magic()[0] && d[1] == magic()[1] && d[2] == magic()[2] && d[3] == magic()[3] && d[4] == magic()[4]
        && d[5] == magic()[5] && d[6] == magic()[6] && d[7] == magic()[7]);
    assert(d.subrange(12, 12 + n) =~= body);
}

/// A device that is too short, of another kind, or whose length is none or too large is
/// refused for that reason.
pub proof fn misfit_devices_are_refused(device: Seq<u8>)
    ensures
        device.len() < 12 ==> device_body_of(device) == Err::<Seq<u8>, BootstrapError>(BootstrapError::Truncated),
        device.len() >= 12 ==> {
            let ours = device[0] == 72 && device[1] == 68 && device[2] == 83 && device[3] == 66 && device[4] == 79
                && device[5] == 79 && device[6] == 84 && device[7] == 49;
            let n = device[8] * 16777216 + device[9] * 65536 + device[10] * 256 + device[11];
            &&& !ours <==> device_body_of(device) == Err::<Seq<u8>, BootstrapError>(BootstrapError::Magic)
            &&& ours && !(1 <= n <= 65536) <==> device_body_of(device) == Err::<Seq<u8>, BootstrapError>(
                BootstrapError::BodySize,
            )
            &&& ours && 1 <= n <= 65536 && device.len() < 12 + n <==> device_body_of(device) == Err::<
                Seq<u8>,
                BootstrapError,
            >(BootstrapError::Truncated)
        },
        device_body_of(device) matches Ok(body) ==> {
            &&& device.len() >= 12 + body.len()
            &&& 1 <= body.len() <= 65536
            &&& device[0] == 72 && device[1] == 68 && device[2] == 83 && device[3] == 66 && device[4] == 79 && device[5]
                == 79 && device[6] == 84 && device[7] == 49
            &&& device[8] * 16777216 + device[9] * 65536 + device[10] * 256 + device[11] == body.len()
            &&& body == device.subrange(12, 12 + body.len() as int)
        },
{
    if device.len() >= 12 {
        let h = device.subrange(8, 12);
        let t = device.take(8);
        assert(h[0] == device[8] && h[1] == device[9] && h[2] == device[10] && h[3] == device[11]);
        assert(t[0] == device[0] && t[1] == device[1] && t[2] == device[2] && t[3] == device[3] && t[4] == device[4]
            && t[5] == device[5] && t[6] == device[6] && t[7] == device[7]);
        assert(magic()[0] == 72 && magic()[1] == 68 && magic()[2] == 83 && magic()[3] == 66 && magic()[4] == 79
            && magic()[5] == 79 && magic()[6] == 84 && magic()[7] == 49);
        if t[0] == 72 && t[1] == 68 && t[2] == 83 && t[3] == 66 && t[4] == 79 && t[5] == 79 && t[6] == 84 && t[7] == 49 {
            assert(t =~= magic());
        }
    }
}

/// A frame holds one byte to 128 KiB, and its header is its length in four bytes from
/// the highest.
pub proof fn frames_carry_their_length(n: u32)
    ensures
        frame_size_valid(n as int) <==> 1 <= n <= 131072,
        frame_header(n).len() == 4,
        frame_header(n)[0] * 16777216 + frame_header(n)[1] * 65536 + frame_header(n)[2] * 256 + frame_header(n)[3] == n,
{
    frame_header_reads_back(n);
}

/// A peer is the guest exactly where it shows a certificate whose digest is pinned and
/// speaks the guest's own protocol.
pub proof fn peers_are_pinned(certificate: Option<Seq<u8>>, pin: [u8; 32], alpn: Option<Seq<u8>>)
    ensures
        certificate is None <==> peer_check(certificate, pin, alpn) == Err::<(), WireError>(WireError::MissingPeer),
        peer_check(certificate, pin, alpn) is Ok <==> (certificate matches Some(c) && sha256_of(c)@ == pin@) && alpn
            == Some(encode_utf8("hudson-guest/1"@)),
        peer_check(certificate, pin, alpn) is Err && certificate is Some ==> peer_check(certificate, pin, alpn) == Err::<
            (),
            WireError,
        >(WireError::Peer),
{
}

/// A boot is told on the wire by the allocation's public text, its generation and its
/// name, and is refused where it is of no real generation, its name is too long, or the
/// text is no allocation's.
pub proof fn boots_are_told_on_the_wire(c: Context, v: WireContext)
    ensures
        context_written(c, v) <==> v.allocation_id@ == id_text("alc"@, c.allocation_id.value) && v.generation
            == c.generation && v.boot_id@ == c.boot_id@,
        context_refusal(v) is None <==> v.generation >= 1 && byte_len(v.boot_id@) <= 64 && is_id_text(
            "alc"@,
            v.allocation_id@,
        ),
{
}

/// A receipt is told on the wire in every field.
pub proof fn receipts_are_told_on_the_wire(r: Receipt, v: WireReceipt)
    requires
        receipt_written(r, v),
    ensures
        v.version == r.version,
        v.context matches Some(c) && c.allocation_id@ == id_text("alc"@, r.context.allocation_id.value) && c.generation
            == r.context.generation && c.boot_id@ == r.context.boot_id@,
        v.operation_id@ == id_text("op"@, r.operation_id.value),
        v.digest@ == r.digest@,
        r.state == State::LaunchIntent <==> v.state == Some(WireState::LaunchIntent),
        r.state == State::Exited <==> v.state == Some(WireState::Exited),
        r.state == State::TimedOut <==> v.state == Some(WireState::TimedOut),
        r.state == State::Cancelled <==> v.state == Some(WireState::Cancelled),
        r.state == State::Unknown <==> v.state == Some(WireState::Unknown),
        v.deadline_unix_ms == r.deadline_unix_ms,
        v.output_limit == r.output_limit,
        v.cancel_requested == r.cancel_requested,
        v.cleanup_confirmed == r.cleanup_confirmed,
        v.exit_code == r.exit_code,
        v.signal == r.signal,
        v.stdout matches Some(o) && o.seen == r.stdout.seen && o.stored == r.stdout.stored && o.truncated
            == r.stdout.truncated,
        v.stderr matches Some(o) && o.seen == r.stderr.seen && o.stored == r.stderr.stored && o.truncated
            == r.stderr.truncated,
        v.reason is None <==> r.reason is None,
        v.reason is Some && r.reason is Some ==> v.reason->0@ == r.reason->0@,
{
}

/// A receipt on the wire is refused for the first part of it that is missing or wrong.
pub proof fn misfit_receipts_are_refused(v: WireReceipt)
    ensures
        v.context is None <==> wire_receipt_refusal(v) == Some(WireError::MissingContext),
        wire_receipt_refusal(v) is None <==> {
            &&& v.context matches Some(c) && c.generation >= 1 && byte_len(c.boot_id@) <= 64 && is_id_text(
                "alc"@,
                c.allocation_id@,
            )
            &&& is_id_text("op"@, v.operation_id@)
            &&& v.digest@.len() == 32
            &&& v.state is Some && v.state != Some(WireState::Unspecified)
            &&& v.stdout is Some
            &&& v.stderr is Some
        },
        v.context matches Some(c) && (c.generation <= 0 || byte_len(c.boot_id@) > 64) <==> wire_receipt_refusal(v)
            == Some(WireError::Context),
        ({
            let booted = v.context matches Some(c) && c.generation >= 1 && byte_len(c.boot_id@) <= 64;
            let named = booted && is_id_text("alc"@, v.context->0.allocation_id@) && is_id_text("op"@, v.operation_id@);
            let digested = named && v.digest@.len() == 32;
            let stated = digested && v.state is Some && v.state != Some(WireState::Unspecified);
            &&& booted && !named <==> wire_receipt_refusal(v) == Some(WireError::Identity)
            &&& named && !digested <==> wire_receipt_refusal(v) == Some(WireError::Digest)
            &&& digested && !stated <==> wire_receipt_refusal(v) == Some(WireError::State)
            &&& stated && (v.stdout is None || v.stderr is None) <==> wire_receipt_refusal(v) == Some(
                WireError::MissingStats,
            )
        }),
{
}

/// A command is told on the wire and read back in every field, its environment in the
/// order of its keys.
pub proof fn commands_are_told_on_the_wire(c: Execute, v: WireExecute)
    ensures
        execute_written(c, v) <==> v.operation_id@ == id_text("op"@, c.operation_id.value) && v.argv@ == c.argv@ && v.env@
            == c.env@ && v.cwd@ == c.cwd@ && v.deadline_unix_ms == c.deadline_unix_ms && v.output_limit
            == c.output_limit,
        execute_read(v, c) ==> v.operation_id@ == id_text("op"@, c.operation_id.value) && v.argv@ == c.argv@
            && member_views(c.env@) == in_key_order(member_views(v.env@)) && v.cwd@ == c.cwd@ && v.deadline_unix_ms
            == c.deadline_unix_ms && v.output_limit == c.output_limit,
{
}

/// A barrier counts exactly where it is of the expected boot and domain, and of a real
/// operation; it covers the operations up to that one.
pub proof fn barriers_are_of_one_boot(b: Barrier, context: Context, domain: Domain, id: OperationId)
    ensures
        barrier_check(b, context, domain) is Ok <==> {
            &&& b.version == 1
            &&& b.domain == domain
            &&& b.context.allocation_id == context.allocation_id && b.context.generation == context.generation
                && b.context.boot_id@ == context.boot_id@
            &&& context.generation >= 1 && context.boot_id@.len() >= 1 && byte_len(context.boot_id@) <= 64
            &&& is_v7(b.through.value)
        },
        covered(b, id) <==> id.value <= b.through.value,
        binding_check(Binding::Retired(b), context, domain) is Ok <==> barrier_check(b, context, domain) is Ok,
        binding_check(Binding::Retired(b), context, domain) matches Ok(x) ==> x == Some(b),
        binding_check(Binding::Legacy(b.context), context, domain) matches Ok(x) ==> x is None,
        binding_check(Binding::Legacy(b.context), context, domain) is Ok <==> b.context.allocation_id
            == context.allocation_id && b.context.generation == context.generation && b.context.boot_id@
            == context.boot_id@,
{
}

} // verus!
