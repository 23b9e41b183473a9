//! APDU dispatcher: parses the pending command of an interchange slot,
//! resolves the target application — by identifier on a select-file command,
//! by the interface's current selection otherwise — invokes it, and writes a
//! well-formed response back. Malformed host input never reaches an
//! undefined state: oversized lengths, an unknown identifier and a missing
//! selection each synthesize their status word and invoke nothing.

use vstd::prelude::*;

use crate::bytes::spec_u16_be;
use crate::interchange::Interchange;
use crate::{COMMAND_CAPACITY, RESPONSE_CAPACITY};
use vstd::slice::{slice_subrange, slice_to_vec};

verus! {

/// Success status word.
pub const SW_SUCCESS: u16 = 0x9000;

/// Status word: wrong length.
pub const SW_WRONG_LENGTH: u16 = 0x6700;

/// Status word: file or application not found.
pub const SW_NOT_FOUND: u16 = 0x6A82;

/// Status word: conditions of use not satisfied.
pub const SW_CONDITIONS_NOT_SATISFIED: u16 = 0x6985;

/// Class and instruction bytes of the interindustry select-file command.
pub const CLA_INTERINDUSTRY: u8 = 0x00;

/// Instruction byte of select-file.
pub const INS_SELECT: u8 = 0xA4;

/// An ISO7816 status word an application answers with.
#[derive(Clone, Copy, Debug, PartialEq, Eq, Structural)]
pub struct Status(pub u16);

/// The physical interface a command arrived on. It affects application
/// behaviour, not dispatch mechanics.
#[derive(Clone, Copy, Debug, PartialEq, Eq, Structural)]
pub enum Interface {
    Contact,
    Contactless,
}

/// The mathematical shape of a parsed command APDU: header bytes, data
/// field, and expected response length (0 when absent).
pub struct CommandView {
    pub cla: u8,
    pub ins: u8,
    pub p1: u8,
    pub p2: u8,
    pub data: Seq<u8>,
    pub le: int,
}

/// A parsed command APDU.
#[derive(Debug)]
pub struct Command {
    pub cla: u8,
    pub ins: u8,
    pub p1: u8,
    pub p2: u8,
    pub data: Vec<u8>,
    pub le: usize,
}

impl View for Command {
    type V = CommandView;

    open spec fn view(&self) -> CommandView {
        CommandView {
            cla: self.cla,
            ins: self.ins,
            p1: self.p1,
            p2: self.p2,
            data: self.data@,
            le: self.le as int,
        }
    }
}

/// What a command APDU's body after the four header bytes means, by the
/// ISO7816-4 cases: nothing; a lone short Le; a short Lc with its data and
/// an optional short Le; or, introduced by a zero byte, the extended
/// two-byte forms of the same. Any other shape parses to nothing.
pub open spec fn spec_parse_body(hdr: CommandView, body: Seq<u8>) -> Option<CommandView> {
    if body.len() == 0 {
        Some(hdr)
    } else if body.len() == 1 {
        Some(
            CommandView {
                le: if body[0] == 0 {
                    256
                } else {
                    body[0] as int
                },
                ..hdr
            },
        )
    } else if body[0] != 0 {
        let lc = body[0] as int;
        if body.len() == 1 + lc {
            Some(CommandView { data: body.subrange(1, 1 + lc), ..hdr })
        } else if body.len() == 2 + lc {
            Some(
                CommandView {
                    data: body.subrange(1, 1 + lc),
                    le: if body[1 + lc] == 0 {
                        256
                    } else {
                        body[1 + lc] as int
                    },
                    ..hdr
                },
            )
        } else {
            None
        }
    } else if body.len() == 3 {
        Some(
            CommandView {
                le: if spec_u16_be(body[1], body[2]) == 0 {
                    65536
                } else {
                    spec_u16_be(body[1], body[2]) as int
                },
                ..hdr
            },
        )
    } else if body.len() >= 4 {
        let lc = spec_u16_be(body[1], body[2]) as int;
        if lc == 0 {
            None
        } else if body.len() == 3 + lc {
            Some(CommandView { data: body.subrange(3, 3 + lc), ..hdr })
        } else if body.len() == 5 + lc {
            Some(
                CommandView {
                    data: body.subrange(3, 3 + lc),
                    le: if spec_u16_be(body[3 + lc], body[4 + lc]) == 0 {
                        65536
                    } else {
                        spec_u16_be(body[3 + lc], body[4 + lc]) as int
                    },
                    ..hdr
                },
            )
        } else {
            None
        }
    } else {
        None
    }
}

/// What a raw command byte sequence parses to: four header bytes, then the
/// body by its case.
pub open spec fn spec_parse_command(b: Seq<u8>) -> Option<CommandView> {
    if b.len() < 4 {
        None
    } else {
        spec_parse_body(
            CommandView { cla: b[0], ins: b[1], p1: b[2], p2: b[3], data: Seq::empty(), le: 0 },
            b.skip(4),
        )
    }
}

/// Parses a raw command byte sequence; what does not parse is answered with
/// the wrong-length status word.
pub fn parse_command(bytes: &[u8]) -> (r: Result<Command, Status>)
    ensures
        match r {
            Ok(cmd) => spec_parse_command(bytes@) == Some(cmd@),
            Err(st) => spec_parse_command(bytes@) is None && st == Status(SW_WRONG_LENGTH),
        },
{
    let n: usize = bytes.len();
    if n < 4 {
        return Err(Status(SW_WRONG_LENGTH));
    }
    let cla = bytes[0];
    let ins = bytes[1];
    let p1 = bytes[2];
    let p2 = bytes[3];
    let body = slice_subrange(bytes, 4, n);
    let bn: usize = body.len();
    if bn == 0 {
        return Ok(Command { cla, ins, p1, p2, data: Vec::new(), le: 0 });
    }
    if bn == 1 {
        let le: usize = if body[0] == 0 {
            256
        } else {
            body[0] as usize
        };
        return Ok(Command { cla, ins, p1, p2, data: Vec::new(), le });
    }
    if body[0] != 0 {
        let lc: usize = body[0] as usize;
        if bn == 1 + lc {
            let data = slice_to_vec(slice_subrange(body, 1, 1 + lc));
            return Ok(Command { cla, ins, p1, p2, data, le: 0 });
        }
        if bn == 2 + lc {
            let data = slice_to_vec(slice_subrange(body, 1, 1 + lc));
            let le_b = body[1 + lc];
            let le: usize = if le_b == 0 {
                256
            } else {
                le_b as usize
            };
            return Ok(Command { cla, ins, p1, p2, data, le });
        }
        return Err(Status(SW_WRONG_LENGTH));
    }
    if bn == 3 {
        let le16 = crate::bytes::get_u16_be(slice_subrange(body, 1, 3));
        let le: usize = if le16 == 0 {
            65536
        } else {
            le16 as usize
        };
        return Ok(Command { cla, ins, p1, p2, data: Vec::new(), le });
    }
    if bn >= 4 {
        let lc16 = crate::bytes::get_u16_be(slice_subrange(body, 1, 3));
        let lc: usize = lc16 as usize;
        if lc == 0 {
            return Err(Status(SW_WRONG_LENGTH));
        }
        if bn == 3 + lc {
            let data = slice_to_vec(slice_subrange(body, 3, 3 + lc));
            return Ok(Command { cla, ins, p1, p2, data, le: 0 });
        }
        if bn == 5 + lc {
            let data = slice_to_vec(slice_subrange(body, 3, 3 + lc));
            let le16b = crate::bytes::get_u16_be(slice_subrange(body, 3 + lc, 5 + lc));
            let le: usize = if le16b == 0 {
                65536
            } else {
                le16b as usize
            };
            return Ok(Command { cla, ins, p1, p2, data, le });
        }
        return Err(Status(SW_WRONG_LENGTH));
    }
    Err(Status(SW_WRONG_LENGTH))
}

/// An application that receives and answers APDUs at the dispatcher's
/// behest. Implementations live with the applications themselves — a FIDO or
/// PIV authenticator, an administrative or provisioning applet — or with a
/// test double; the dispatcher asks only that a reply payload fit the
/// response buffer.
pub trait App {
    /// The application was selected by its identifier; it may write a reply
    /// payload. Alternatively it answers with a status word.
    fn select(&mut self, apdu: &Command, reply: &mut Vec<u8>) -> (r: Result<(), Status>)
        ensures
            final(reply)@.len() <= RESPONSE_CAPACITY,
    ;

    /// Another application got selected; session and security state must be
    /// discarded.
    fn deselect(&mut self);

    /// An ordinary command while this application is selected.
    fn call(&mut self, interface: Interface, apdu: &Command, reply: &mut Vec<u8>) -> (r: Result<
        (),
        Status,
    >)
        ensures
            final(reply)@.len() <= RESPONSE_CAPACITY,
    ;
}

/// One entry of the dispatch table: an application under the identifier it
/// registered. Declaration order decides ties — the first match wins.
pub struct RegisteredApp<A: App> {
    /// The 5–16 byte application identifier select-file matches against.
    pub aid: Vec<u8>,
    /// The application itself.
    pub app: A,
}

/// The registered identifiers, in declaration order.
pub open spec fn spec_aids<A: App>(regs: Seq<RegisteredApp<A>>) -> Seq<Seq<u8>> {
    Seq::new(regs.len(), |i: int| regs[i].aid@)
}

/// The first index whose registered identifier equals `aid`, if any.
pub open spec fn spec_find_aid(aids: Seq<Seq<u8>>, aid: Seq<u8>) -> Option<int>
    decreases aids.len(),
{
    if aids.len() == 0 {
        None
    } else if aids[0] == aid {
        Some(0)
    } else {
        match spec_find_aid(aids.drop_first(), aid) {
            Some(i) => Some(i + 1),
            None => None,
        }
    }
}

/// A found index is in bounds, carries the identifier looked for, and
/// nothing before it does: the first match wins.
pub proof fn lemma_find_aid_characterization(aids: Seq<Seq<u8>>, aid: Seq<u8>)
    ensures
        match spec_find_aid(aids, aid) {
            Some(i) => 0 <= i < aids.len() && aids[i] == aid && (forall|j: int|
                0 <= j < i ==> aids[j] != aid),
            None => forall|j: int| 0 <= j < aids.len() ==> aids[j] != aid,
        },
    decreases aids.len(),
{
    if aids.len() == 0 {
    } else if aids[0] == aid {
    } else {
        lemma_find_aid_characterization(aids.drop_first(), aid);
        match spec_find_aid(aids.drop_first(), aid) {
            Some(i) => {
                assert(aids.drop_first()[i] == aids[i + 1]);
                assert forall|j: int| 0 <= j < i + 1 implies aids[j] != aid by {
                    if j > 0 {
                        assert(aids.drop_first()[j - 1] == aids[j]);
                    }
                }
            },
            None => {
                assert forall|j: int| 0 <= j < aids.len() implies aids[j] != aid by {
                    if j > 0 {
                        assert(aids.drop_first()[j - 1] == aids[j]);
                    }
                }
            },
        }
    }
}

/// Nothing registered before a given matching index means the search finds
/// at most that index.
pub proof fn lemma_find_aid_first_match(aids: Seq<Seq<u8>>, aid: Seq<u8>, i: int)
    requires
        0 <= i < aids.len(),
        aids[i] == aid,
        forall|j: int| 0 <= j < i ==> aids[j] != aid,
    ensures
        spec_find_aid(aids, aid) == Some(i),
    decreases aids.len(),
{
    if i == 0 {
    } else {
        assert forall|j: int| 0 <= j < i - 1 implies aids.drop_first()[j] != aid by {
            assert(aids.drop_first()[j] == aids[j + 1]);
        }
        assert(aids.drop_first()[i - 1] == aids[i]);
        lemma_find_aid_first_match(aids.drop_first(), aid, i - 1);
    }
}

/// Whether two byte strings hold the same bytes.
pub fn bytes_equal(a: &[u8], b: &[u8]) -> (r: bool)
    ensures
        r == (a@ == b@),
{
    if a.len() != b.len() {
        return false;
    }
    let n: usize = a.len();
    let mut i: usize = 0;
    while i < n
        invariant
            n == a@.len(),
            n == b@.len(),
            i <= n,
            forall|j: int| 0 <= j < i ==> a@[j] == b@[j],
        decreases n - i,
    {
        if a[i] != b[i] {
            return false;
        }
        i = i + 1;
    }
    proof {
        assert(a@ =~= b@);
    }
    true
}

/// Looks the identifier up in the dispatch table, first match winning.
pub fn find_app<A: App>(regs: &Vec<RegisteredApp<A>>, aid: &Vec<u8>) -> (r: Option<usize>)
    ensures
        match r {
            Some(k) => spec_find_aid(spec_aids(regs@), aid@) == Some(k as int),
            None => spec_find_aid(spec_aids(regs@), aid@) is None,
        },
{
    let n: usize = regs.len();
    let mut i: usize = 0;
    while i < n
        invariant
            n == regs@.len(),
            i <= n,
            forall|j: int| 0 <= j < i ==> spec_aids(regs@)[j] != aid@,
        decreases n - i,
    {
        if bytes_equal(regs[i].aid.as_slice(), aid.as_slice()) {
            proof {
                assert(spec_aids(regs@)[i as int] == aid@);
                lemma_find_aid_first_match(spec_aids(regs@), aid@, i as int);
            }
            return Some(i);
        }
        proof {
            assert(spec_aids(regs@)[i as int] == regs@[i as int].aid@);
        }
        i = i + 1;
    }
    proof {
        lemma_find_aid_characterization(spec_aids(regs@), aid@);
    }
    None
}

/// Whether a parsed command is the interindustry select-file command.
pub open spec fn spec_is_select(c: CommandView) -> bool {
    c.cla == CLA_INTERINDUSTRY && c.ins == INS_SELECT
}

/// Whether a parsed command fits the fixed buffers: its data in the command
/// buffer, its expected response in the response buffer.
pub open spec fn spec_lengths_ok(c: CommandView) -> bool {
    c.data.len() <= COMMAND_CAPACITY && c.le <= RESPONSE_CAPACITY
}

/// The selection slot as a mathematical option over indices.
pub open spec fn spec_slot_int(s: Option<usize>) -> Option<int> {
    match s {
        Some(k) => Some(k as int),
        None => None,
    }
}

/// What the dispatcher decides to do with one pending command: answer with a
/// synthesized status word and invoke nothing; select the application at an
/// index, deselecting at most one other; or call the selected application.
pub enum Decision {
    Reply(u16),
    SelectApp { idx: int, deselect: Option<int> },
    CallApp(int),
}

/// The dispatch rule. What does not parse, and what would overflow a fixed
/// buffer, is answered with wrong-length and reaches no application. A
/// select-file command goes to the first application registered under the
/// identifier in its data field: the previously selected application is
/// deselected exactly when the selection actually changes, and an unknown
/// identifier is answered with not-found, leaving the selection as it was.
/// Every other command goes to the selected application, or is answered with
/// conditions-not-satisfied when nothing is selected.
pub open spec fn spec_route(
    parsed: Option<CommandView>,
    slot: Option<int>,
    aids: Seq<Seq<u8>>,
) -> Decision {
    match parsed {
        None => Decision::Reply(SW_WRONG_LENGTH),
        Some(c) => if !spec_lengths_ok(c) {
            Decision::Reply(SW_WRONG_LENGTH)
        } else if spec_is_select(c) {
            match spec_find_aid(aids, c.data) {
                Some(j) => Decision::SelectApp {
                    idx: j,
                    deselect: if slot == Some(j) {
                        None
                    } else {
                        slot
                    },
                },
                None => Decision::Reply(SW_NOT_FOUND),
            }
        } else {
            match slot {
                Some(k) => Decision::CallApp(k),
                None => Decision::Reply(SW_CONDITIONS_NOT_SATISFIED),
            }
        },
    }
}

/// The two bytes of a bare status word.
pub open spec fn spec_status_bytes(sw: u16) -> Seq<u8> {
    seq![(sw >> 8) as u8, (sw & 0xff) as u8]
}

/// Appends the status word to a reply payload, forming the response bytes.
pub fn build_response(payload: Vec<u8>, sw: u16) -> (r: Vec<u8>)
    ensures
        r@ == payload@ + spec_status_bytes(sw),
{
    proof {
        assert(sw >> 8 < 256) by (bit_vector);
        assert(sw & 0xff < 256) by (bit_vector);
    }
    let ghost orig = payload@;
    let mut out = payload;
    out.push((sw >> 8) as u8);
    out.push((sw & 0xff) as u8);
    proof {
        assert(out@ =~= orig + spec_status_bytes(sw));
    }
    out
}

/// Builds the response for a synthesized bare status word.
pub fn synth_response(sw: u16) -> (r: Vec<u8>)
    ensures
        r@ == spec_status_bytes(sw),
{
    proof {
        assert(sw >> 8 < 256) by (bit_vector);
        assert(sw & 0xff < 256) by (bit_vector);
    }
    let mut out: Vec<u8> = Vec::new();
    out.push((sw >> 8) as u8);
    out.push((sw & 0xff) as u8);
    proof {
        assert(out@ =~= spec_status_bytes(sw));
    }
    out
}

/// A response handed back from an application: some reply payload followed
/// by a status word, the payload empty unless the status is success — an
/// application error passes verbatim and carries no payload.
pub open spec fn spec_app_response(rb: Seq<u8>) -> bool {
    exists|payload: Seq<u8>, sw: u16|
        {
            &&& rb == #[trigger] (payload + spec_status_bytes(sw))
            &&& (sw != SW_SUCCESS ==> payload.len() == 0)
            &&& payload.len() <= RESPONSE_CAPACITY
        }
}

/// How one poll of one slot behaves, as a relation between the states before
/// and after: a slot without a pending request is left alone; a pending
/// request is always answered in one tick, the selection and the table
/// changing exactly as the dispatch rule decides. A synthesized reply
/// touches no application; a select touches the newly selected application
/// and the one it deselects; a call touches the selected application alone,
/// and either way the invoked application's result becomes the response —
/// its reply payload under a success status, or its error status alone.
pub open spec fn spec_poll_behaviour<A: App>(
    ch_pre: Interchange<Vec<u8>, Vec<u8>>,
    ch_post: Interchange<Vec<u8>, Vec<u8>>,
    slot_pre: Option<usize>,
    slot_post: Option<usize>,
    regs_pre: Seq<RegisteredApp<A>>,
    regs_post: Seq<RegisteredApp<A>>,
    r: bool,
) -> bool {
    &&& regs_post.len() == regs_pre.len()
    &&& spec_aids(regs_post) == spec_aids(regs_pre)
    &&& (match ch_pre {
        Interchange::Requested(bytes) => {
            &&& r == true
            &&& (match spec_route(
                spec_parse_command(bytes@),
                spec_slot_int(slot_pre),
                spec_aids(regs_pre),
            ) {
                Decision::Reply(sw) => {
                    &&& (ch_post matches Interchange::Responded(rb) && rb@ == spec_status_bytes(
                        sw,
                    ))
                    &&& slot_post == slot_pre
                    &&& regs_post == regs_pre
                },
                Decision::SelectApp { idx, deselect } => {
                    &&& (ch_post matches Interchange::Responded(rb) && 2 <= rb@.len()
                        <= RESPONSE_CAPACITY + 2 && spec_app_response(rb@))
                    &&& (slot_post matches Some(k) && k as int == idx)
                    &&& 0 <= idx < regs_pre.len()
                    &&& (forall|j: int|
                        0 <= j < regs_pre.len() && j != idx && Some(j) != deselect
                            ==> regs_post[j] == regs_pre[j])
                },
                Decision::CallApp(idx) => {
                    &&& (ch_post matches Interchange::Responded(rb) && 2 <= rb@.len()
                        <= RESPONSE_CAPACITY + 2 && spec_app_response(rb@))
                    &&& slot_post == slot_pre
                    &&& (forall|j: int|
                        0 <= j < regs_pre.len() && j != idx ==> regs_post[j] == regs_pre[j])
                },
            })
        },
        _ => r == false && ch_post == ch_pre && slot_post == slot_pre && regs_post == regs_pre,
    })
}

/// Polls one interchange slot: takes the pending command if there is one,
/// dispatches it by the dispatch rule, and writes the response back. Returns
/// whether a response was produced.
pub fn poll_channel<A: App>(
    channel: &mut Interchange<Vec<u8>, Vec<u8>>,
    slot: &mut Option<usize>,
    interface: Interface,
    regs: &mut Vec<RegisteredApp<A>>,
) -> (r: bool)
    requires
        (match *old(slot) {
            Some(k) => (k as int) < old(regs)@.len(),
            None => true,
        }),
    ensures
        spec_poll_behaviour(
            *old(channel),
            *final(channel),
            *old(slot),
            *final(slot),
            old(regs)@,
            final(regs)@,
            r,
        ),
        (match *final(slot) {
            Some(k) => (k as int) < final(regs)@.len(),
            None => true,
        }),
{
    let ghost regs0 = regs@;
    let bytes = match channel.take_request() {
        Some(b) => b,
        None => {
            return false;
        },
    };
    let rb: Vec<u8>;
    match parse_command(bytes.as_slice()) {
        Err(st) => {
            rb = synth_response(st.0);
        },
        Ok(cmd) => {
            if cmd.data.len() > COMMAND_CAPACITY || cmd.le > RESPONSE_CAPACITY {
                rb = synth_response(SW_WRONG_LENGTH);
            } else if cmd.cla == CLA_INTERINDUSTRY && cmd.ins == INS_SELECT {
                match find_app(regs, &cmd.data) {
                    Some(j) => {
                        proof {
                            lemma_find_aid_characterization(spec_aids(regs@), cmd.data@);
                        }
                        match *slot {
                            Some(p) => {
                                if p != j {
                                    regs[p].app.deselect();
                                }
                            },
                            None => {},
                        }
                        proof {
                            assert(spec_aids(regs@) =~= spec_aids(regs0));
                        }
                        let mut reply: Vec<u8> = Vec::new();
                        let res = regs[j].app.select(&cmd, &mut reply);
                        *slot = Some(j);
                        let ghost rp = reply@;
                        match res {
                            Ok(()) => {
                                rb = build_response(reply, SW_SUCCESS);
                                proof {
                                    assert(rb@ == rp + spec_status_bytes(SW_SUCCESS));
                                    assert(spec_app_response(rb@));
                                }
                            },
                            Err(st) => {
                                rb = synth_response(st.0);
                                proof {
                                    assert(rb@ =~= Seq::<u8>::empty() + spec_status_bytes(st.0));
                                    assert(spec_app_response(rb@));
                                }
                            },
                        }
                        proof {
                            assert(spec_aids(regs@) =~= spec_aids(regs0));
                        }
                    },
                    None => {
                        rb = synth_response(SW_NOT_FOUND);
                    },
                }
            } else {
                match *slot {
                    Some(k) => {
                        let mut reply: Vec<u8> = Vec::new();
                        let res = regs[k].app.call(interface, &cmd, &mut reply);
                        let ghost rp = reply@;
                        match res {
                            Ok(()) => {
                                rb = build_response(reply, SW_SUCCESS);
                                proof {
                                    assert(rb@ == rp + spec_status_bytes(SW_SUCCESS));
                                    assert(spec_app_response(rb@));
                                }
                            },
                            Err(st) => {
                                rb = synth_response(st.0);
                                proof {
                                    assert(rb@ =~= Seq::<u8>::empty() + spec_status_bytes(st.0));
                                    assert(spec_app_response(rb@));
                                }
                            },
                        }
                        proof {
                            assert(spec_aids(regs@) =~= spec_aids(regs0));
                        }
                    },
                    None => {
                        rb = synth_response(SW_CONDITIONS_NOT_SATISFIED);
                    },
                }
            }
        },
    }
    match channel.respond(rb) {
        Ok(()) => (),
        Err(_) => (),
    }
    true
}

/// The dispatcher: one interchange slot and one selection slot per physical
/// interface. At most one application is selected per interface at any time
/// — the selection slot is the only record of it, and only the dispatch rule
/// changes it.
pub struct ApduDispatch {
    contact: Interchange<Vec<u8>, Vec<u8>>,
    contactless: Interchange<Vec<u8>, Vec<u8>>,
    selected_contact: Option<usize>,
    selected_contactless: Option<usize>,
}

impl ApduDispatch {
    /// The interchange slot of one interface.
    pub closed spec fn spec_channel(self, i: Interface) -> Interchange<Vec<u8>, Vec<u8>> {
        match i {
            Interface::Contact => self.contact,
            Interface::Contactless => self.contactless,
        }
    }

    /// The selection slot of one interface.
    pub closed spec fn spec_slot(self, i: Interface) -> Option<usize> {
        match i {
            Interface::Contact => self.selected_contact,
            Interface::Contactless => self.selected_contactless,
        }
    }

    /// The interface the other slot pair belongs to.
    pub open spec fn spec_other(i: Interface) -> Interface {
        match i {
            Interface::Contact => Interface::Contactless,
            Interface::Contactless => Interface::Contact,
        }
    }

    /// A fresh dispatcher: both interchange slots empty, nothing selected.
    pub fn new() -> (r: Self)
        ensures
            forall|i: Interface| r.spec_channel(i) is Idle,
            forall|i: Interface| r.spec_slot(i) is None,
    {
        let r = ApduDispatch {
            contact: Interchange::new(),
            contactless: Interchange::new(),
            selected_contact: None,
            selected_contactless: None,
        };
        proof {
            assert forall|i: Interface| r.spec_channel(i) is Idle by {
                match i {
                    Interface::Contact => {},
                    Interface::Contactless => {},
                }
            }
            assert forall|i: Interface| r.spec_slot(i) is None by {
                match i {
                    Interface::Contact => {},
                    Interface::Contactless => {},
                }
            }
        }
        r
    }

    /// The index of the application currently selected on one interface, if
    /// any — what a caller needs to see to know that a table it passes to
    /// [`Self::poll`] covers the selection.
    pub fn selected(&self, i: Interface) -> (r: Option<usize>)
        ensures
            r == self.spec_slot(i),
    {
        match i {
            Interface::Contact => self.selected_contact,
            Interface::Contactless => self.selected_contactless,
        }
    }

    /// A transport deposits raw command bytes for one interface; anywhere
    /// but Idle the deposit comes back to be retried on a later poll, and
    /// nothing changes.
    pub fn deposit_command(&mut self, i: Interface, bytes: Vec<u8>) -> (r: Result<(), Vec<u8>>)
        ensures
            final(self).spec_slot(i) == old(self).spec_slot(i),
            final(self).spec_channel(Self::spec_other(i)) == old(self).spec_channel(
                Self::spec_other(i),
            ),
            final(self).spec_slot(Self::spec_other(i)) == old(self).spec_slot(Self::spec_other(i)),
            match old(self).spec_channel(i) {
                Interchange::Idle => r is Ok && (final(self).spec_channel(i)
                    matches Interchange::Requested(q) && q == bytes),
                _ => (r matches Err(back) && back == bytes) && final(self).spec_channel(i) == old(
                    self,
                ).spec_channel(i),
            },
    {
        match i {
            Interface::Contact => self.contact.request(bytes),
            Interface::Contactless => self.contactless.request(bytes),
        }
    }

    /// A transport drains the response of one interface, resetting its slot
    /// to Idle; with no response waiting, nothing changes.
    pub fn take_response(&mut self, i: Interface) -> (r: Option<Vec<u8>>)
        ensures
            final(self).spec_slot(i) == old(self).spec_slot(i),
            final(self).spec_channel(Self::spec_other(i)) == old(self).spec_channel(
                Self::spec_other(i),
            ),
            final(self).spec_slot(Self::spec_other(i)) == old(self).spec_slot(Self::spec_other(i)),
            match old(self).spec_channel(i) {
                Interchange::Responded(p) => (r matches Some(taken) && taken == p)
                    && final(self).spec_channel(i) is Idle,
                _ => r is None && final(self).spec_channel(i) == old(self).spec_channel(i),
            },
    {
        match i {
            Interface::Contact => self.contact.take_response(),
            Interface::Contactless => self.contactless.take_response(),
        }
    }

    /// Polls one interface: drains its pending command if any, dispatches it
    /// by the dispatch rule against the table, and writes the response back.
    /// Returns whether a response was produced, so a transport knows to
    /// re-arm its host-side paths. The other interface is untouched.
    pub fn poll<A: App>(&mut self, interface: Interface, regs: &mut Vec<RegisteredApp<A>>) -> (r:
        bool)
        requires
            (match old(self).spec_slot(interface) {
                Some(k) => (k as int) < old(regs)@.len(),
                None => true,
            }),
        ensures
            spec_poll_behaviour(
                old(self).spec_channel(interface),
                final(self).spec_channel(interface),
                old(self).spec_slot(interface),
                final(self).spec_slot(interface),
                old(regs)@,
                final(regs)@,
                r,
            ),
            final(self).spec_channel(Self::spec_other(interface)) == old(self).spec_channel(
                Self::spec_other(interface),
            ),
            final(self).spec_slot(Self::spec_other(interface)) == old(self).spec_slot(
                Self::spec_other(interface),
            ),
            (match final(self).spec_slot(interface) {
                Some(k) => (k as int) < final(regs)@.len(),
                None => true,
            }),
    {
        match interface {
            Interface::Contact => poll_channel(
                &mut self.contact,
                &mut self.selected_contact,
                interface,
                regs,
            ),
            Interface::Contactless => poll_channel(
                &mut self.contactless,
                &mut self.selected_contactless,
                interface,
                regs,
            ),
        }
    }
}

/// A command whose declared lengths exceed the fixed buffers is answered
/// with the wrong-length status word and dispatched to no application,
/// whatever the selection and the table.
pub proof fn lemma_overlong_command_rejected(
    c: CommandView,
    slot: Option<int>,
    aids: Seq<Seq<u8>>,
)
    requires
        !spec_lengths_ok(c),
    ensures
        spec_route(Some(c), slot, aids) == Decision::Reply(SW_WRONG_LENGTH),
{
}

/// While an application is selected, every well-formed non-select command
/// routes to it — the selection can only be moved by a select-file command.
pub proof fn lemma_selected_app_receives_calls(c: CommandView, k: int, aids: Seq<Seq<u8>>)
    requires
        spec_lengths_ok(c),
        !spec_is_select(c),
    ensures
        spec_route(Some(c), Some(k), aids) == Decision::CallApp(k),
{
}

/// Selecting the identifier of the already-selected application deselects
/// nothing: deselect fires only on an actual switch.
pub proof fn lemma_repeated_select_deselects_nothing(
    c: CommandView,
    j: int,
    aids: Seq<Seq<u8>>,
)
    requires
        spec_lengths_ok(c),
        spec_is_select(c),
        spec_find_aid(aids, c.data) == Some(j),
    ensures
        spec_route(Some(c), Some(j), aids) == (Decision::SelectApp { idx: j, deselect: None }),
{
}

/// A select that moves the selection deselects exactly the previously
/// selected application, and selects the first registered match.
pub proof fn lemma_select_switch_deselects_previous(
    c: CommandView,
    j: int,
    p: int,
    aids: Seq<Seq<u8>>,
)
    requires
        spec_lengths_ok(c),
        spec_is_select(c),
        spec_find_aid(aids, c.data) == Some(j),
        p != j,
    ensures
        spec_route(Some(c), Some(p), aids) == (Decision::SelectApp {
            idx: j,
            deselect: Some(p),
        }),
{
}

/// A select naming no registered identifier is answered with not-found; by
/// the poll behaviour a reply decision leaves selection and table untouched.
pub proof fn lemma_unknown_aid_changes_nothing(
    c: CommandView,
    slot: Option<int>,
    aids: Seq<Seq<u8>>,
)
    requires
        spec_lengths_ok(c),
        spec_is_select(c),
        spec_find_aid(aids, c.data) is None,
    ensures
        spec_route(Some(c), slot, aids) == Decision::Reply(SW_NOT_FOUND),
{
}

} // verus!
