//! What a register program does on the bus when every transfer succeeds,
//! and the proof that driving a run with `Ov2640::advance` does exactly
//! that.

use vstd::prelude::*;

use crate::driver::{
    advance_spec, EXPECTED_PID, EXPECTED_VER, field_update, id_matches, pump, read_or_zero, BusAction, Pending, RegOp,
    RunState, SensorState,
};
use crate::driver::OutputConfig;
use crate::plans::{bits_ops, init_ops, output_ops, reset_ops, table_ops, verify_id_ops};
use crate::tables::RegisterTables;
use crate::registers::{BANK_SEL, BANK_SENSOR, COM7, COM7_SRST, REG_PID, REG_VER};

verus! {

/// The first reply, zero when there is none.
pub open spec fn first_reply(replies: Seq<u8>) -> u8 {
    read_or_zero(replies, 0)
}

/// The replies after the first.
pub open spec fn later_replies(replies: Seq<u8>) -> Seq<u8> {
    if replies.len() > 0 {
        replies.drop_first()
    } else {
        replies
    }
}

/// The bank known selected after a write of `value` to `reg`.
pub open spec fn bank_after_write(bank: Option<u8>, reg: u8, value: u8) -> Option<u8> {
    if reg == BANK_SEL {
        Some(value)
    } else {
        bank
    }
}

/// An action after which a run asks for nothing more.
pub open spec fn is_final(a: BusAction) -> bool {
    a is Done || a is WrongId
}

/// The actions that program `ops` asks for, in order, when every transfer
/// succeeds and reads are answered by `replies` in order: writes and reads
/// of its steps, a bank-select write for each `SelectBank` of a bank not
/// known selected, a read and a write back for each `Update`, its waits,
/// and finally `Done`, or `WrongId` where an identification check fails.
/// `bank` is the bank known selected and `reads` the bytes read before.
pub open spec fn program_actions(
    bank: Option<u8>,
    address: u8,
    ops: Seq<RegOp>,
    reads: Seq<u8>,
    replies: Seq<u8>,
) -> Seq<BusAction>
    decreases ops.len(),
{
    if ops.len() == 0 {
        seq![BusAction::Done]
    } else {
        let rest = ops.drop_first();
        match ops[0] {
            RegOp::Write { reg, value } => seq![BusAction::Write { address, reg, value }]
                + program_actions(bank_after_write(bank, reg, value), address, rest, reads, replies),
            RegOp::Read { reg } => seq![BusAction::Read { address, reg }] + program_actions(
                bank,
                address,
                rest,
                reads.push(first_reply(replies)),
                later_replies(replies),
            ),
            RegOp::SelectBank { bank: b } => if bank == Some(b) {
                program_actions(bank, address, rest, reads, replies)
            } else {
                seq![BusAction::Write { address, reg: BANK_SEL, value: b }] + program_actions(
                    Some(b),
                    address,
                    rest,
                    reads,
                    replies,
                )
            },
            RegOp::Update { reg, offset, mask, value } => {
                let v = field_update(first_reply(replies), offset, mask, value);
                seq![BusAction::Read { address, reg }, BusAction::Write { address, reg, value: v }]
                    + program_actions(
                    bank_after_write(bank, reg, v),
                    address,
                    rest,
                    reads,
                    later_replies(replies),
                )
            },
            RegOp::Delay { ms } => seq![BusAction::Delay { ms }] + program_actions(
                bank,
                address,
                rest,
                reads,
                replies,
            ),
            RegOp::ForgetBank => program_actions(None, address, rest, reads, replies),
            RegOp::CheckId => if id_matches(reads) {
                program_actions(bank, address, rest, reads, replies)
            } else {
                seq![
                    BusAction::WrongId {
                        pid: read_or_zero(reads, 0),
                        ver: read_or_zero(reads, 1),
                    },
                ]
            },
        }
    }
}

/// Whether completing `pending` consumes a reply.
pub open spec fn takes_reply(pending: Pending) -> bool {
    pending is Read || pending is Update
}

/// The actions still to come of a run whose steps from `next` on have not
/// started and whose last requested transfer completes as `pending` says.
pub open spec fn remaining_actions(
    bank: Option<u8>,
    address: u8,
    ops: Seq<RegOp>,
    next: int,
    pending: Pending,
    reads: Seq<u8>,
    replies: Seq<u8>,
) -> Seq<BusAction> {
    let rest = ops.skip(next);
    match pending {
        Pending::Idle => program_actions(bank, address, rest, reads, replies),
        Pending::Write { reg, value } => program_actions(
            bank_after_write(bank, reg, value),
            address,
            rest,
            reads,
            replies,
        ),
        Pending::Read => program_actions(
            bank,
            address,
            rest,
            reads.push(first_reply(replies)),
            later_replies(replies),
        ),
        Pending::Update { reg, offset, mask, value } => {
            let v = field_update(first_reply(replies), offset, mask, value);
            seq![BusAction::Write { address, reg, value: v }] + program_actions(
                bank_after_write(bank, reg, v),
                address,
                rest,
                reads,
                later_replies(replies),
            )
        },
    }
}

/// The actions asked for by successive calls of `Ov2640::advance` when
/// each requested transfer succeeds and each read is answered by the next
/// byte of `replies`, for at most `fuel` calls, up to the final action.
pub open spec fn drive(s: SensorState, r: RunState, replies: Seq<u8>, fuel: nat) -> Seq<BusAction>
    decreases fuel,
{
    if fuel == 0 {
        seq![]
    } else {
        let reply = if takes_reply(r.pending) {
            first_reply(replies)
        } else {
            0
        };
        let next_replies = if takes_reply(r.pending) {
            later_replies(replies)
        } else {
            replies
        };
        let (s2, r2, a) = advance_spec(s, r, reply);
        if is_final(a) {
            seq![a]
        } else {
            seq![a] + drive(s2, r2, next_replies, (fuel - 1) as nat)
        }
    }
}

proof fn lemma_pump_actions(
    bank: Option<u8>,
    address: u8,
    ops: Seq<RegOp>,
    next: int,
    reads: Seq<u8>,
    replies: Seq<u8>,
)
    requires
        0 <= next <= ops.len(),
    ensures
        ({
            let (b2, n2, p2, a) = pump(bank, address, ops, next, reads);
            &&& 0 <= n2 <= ops.len()
            &&& (a is Write <==> p2 is Write)
            &&& program_actions(bank, address, ops.skip(next), reads, replies) == seq![a] + (if is_final(a) {
                seq![]
            } else {
                remaining_actions(b2, address, ops, n2, p2, reads, replies)
            })
        }),
    decreases ops.len() - next,
{
    let rest = ops.skip(next);
    if next == ops.len() {
        assert(rest =~= Seq::<RegOp>::empty());
    } else {
        assert(rest[0] == ops[next]);
        assert(rest.drop_first() =~= ops.skip(next + 1));
        match ops[next] {
            RegOp::SelectBank { bank: b } => {
                if bank == Some(b) {
                    lemma_pump_actions(bank, address, ops, next + 1, reads, replies);
                }
            },
            RegOp::ForgetBank => {
                lemma_pump_actions(None, address, ops, next + 1, reads, replies);
            },
            RegOp::CheckId => {
                if id_matches(reads) {
                    lemma_pump_actions(bank, address, ops, next + 1, reads, replies);
                }
            },
            RegOp::Update { reg, offset, mask, value } => {
                let v = field_update(first_reply(replies), offset, mask, value);
                assert(seq![BusAction::Read { address, reg }, BusAction::Write { address, reg, value: v }]
                    =~= seq![BusAction::Read { address, reg }] + seq![BusAction::Write { address, reg, value: v }]);
            },
            _ => {},
        }
    }
}

proof fn lemma_advance_actions(s: SensorState, r: RunState, replies: Seq<u8>)
    requires
        0 <= r.next <= r.ops.len(),
    ensures
        ({
            let reply = if takes_reply(r.pending) {
                first_reply(replies)
            } else {
                0
            };
            let next_replies = if takes_reply(r.pending) {
                later_replies(replies)
            } else {
                replies
            };
            let (s2, r2, a) = advance_spec(s, r, reply);
            &&& 0 <= r2.next <= r2.ops.len()
            &&& s2.address == s.address
            &&& (a is Write <==> r2.pending is Write)
            &&& r2.writes == (if r.pending is Write {
                r.writes.wrapping_add(1)
            } else {
                r.writes
            })
            &&& remaining_actions(s.bank, s.address, r.ops, r.next, r.pending, r.reads, replies)
                == seq![a] + (if is_final(a) {
                seq![]
            } else {
                remaining_actions(s2.bank, s2.address, r2.ops, r2.next, r2.pending, r2.reads, next_replies)
            })
        }),
{
    match r.pending {
        Pending::Update { reg, offset, mask, value } => {},
        Pending::Write { reg, value } => {
            lemma_pump_actions(bank_after_write(s.bank, reg, value), s.address, r.ops, r.next, r.reads, replies);
        },
        Pending::Read => {
            lemma_pump_actions(
                s.bank,
                s.address,
                r.ops,
                r.next,
                r.reads.push(first_reply(replies)),
                later_replies(replies),
            );
        },
        Pending::Idle => {
            lemma_pump_actions(s.bank, s.address, r.ops, r.next, r.reads, replies);
        },
    }
}

proof fn lemma_drive_remaining(s: SensorState, r: RunState, replies: Seq<u8>, fuel: nat)
    requires
        0 <= r.next <= r.ops.len(),
        remaining_actions(s.bank, s.address, r.ops, r.next, r.pending, r.reads, replies).len()
            <= fuel,
    ensures
        drive(s, r, replies, fuel) == remaining_actions(
            s.bank,
            s.address,
            r.ops,
            r.next,
            r.pending,
            r.reads,
            replies,
        ),
    decreases fuel,
{
    lemma_advance_actions(s, r, replies);
    let reply = if takes_reply(r.pending) {
        first_reply(replies)
    } else {
        0
    };
    let next_replies = if takes_reply(r.pending) {
        later_replies(replies)
    } else {
        replies
    };
    let (s2, r2, a) = advance_spec(s, r, reply);
    if !is_final(a) {
        lemma_drive_remaining(s2, r2, next_replies, (fuel - 1) as nat);
    }
}

/// A run carries out its program: driving a new run of `ops` with
/// `Ov2640::advance`, every transfer succeeding and reads answered by
/// `replies` in order, asks for exactly the actions of
/// [`program_actions`], given calls enough.
pub proof fn lemma_run_performs_program(s: SensorState, ops: Seq<RegOp>, replies: Seq<u8>, fuel: nat)
    requires
        program_actions(s.bank, s.address, ops, seq![], replies).len() <= fuel,
    ensures
        drive(
            s,
            RunState { ops, next: 0, pending: Pending::Idle, reads: seq![], writes: 0 },
            replies,
            fuel,
        ) == program_actions(s.bank, s.address, ops, seq![], replies),
{
    assert(ops.skip(0) =~= ops);
    lemma_drive_remaining(
        s,
        RunState { ops, next: 0, pending: Pending::Idle, reads: seq![], writes: 0 },
        replies,
        fuel,
    );
}

/// The bank-select write that selecting `b` costs when `bank` is known
/// selected: none when `b` is that bank.
pub open spec fn select_actions(bank: Option<u8>, address: u8, b: u8) -> Seq<BusAction> {
    if bank == Some(b) {
        seq![]
    } else {
        seq![BusAction::Write { address, reg: BANK_SEL, value: b }]
    }
}

/// Selecting a bank writes `BANK_SEL` only when that bank is not known to
/// be selected; afterwards it is.
pub proof fn lemma_select_bank_actions(
    bank: Option<u8>,
    address: u8,
    b: u8,
    rest: Seq<RegOp>,
    reads: Seq<u8>,
    replies: Seq<u8>,
)
    ensures
        program_actions(bank, address, seq![RegOp::SelectBank { bank: b }] + rest, reads, replies)
            == select_actions(bank, address, b) + program_actions(
            Some(b),
            address,
            rest,
            reads,
            replies,
        ),
{
    let ops = seq![RegOp::SelectBank { bank: b }] + rest;
    assert(ops[0] == RegOp::SelectBank { bank: b });
    assert(ops.drop_first() =~= rest);
    if bank == Some(b) {
        assert(seq![] + program_actions(Some(b), address, rest, reads, replies) =~= program_actions(
            Some(b),
            address,
            rest,
            reads,
            replies,
        ));
    }
}

/// `set_reg_bits` selects the bank if needed, reads the register, and
/// writes back the reply with only the field replaced.
pub proof fn lemma_set_reg_bits_actions(
    bank: Option<u8>,
    address: u8,
    b: u8,
    reg: u8,
    offset: u8,
    mask: u8,
    value: u8,
    reads: Seq<u8>,
    replies: Seq<u8>,
)
    ensures
        program_actions(bank, address, bits_ops(b, reg, offset, mask, value), reads, replies)
            == select_actions(bank, address, b) + seq![
            BusAction::Read { address, reg },
            BusAction::Write {
                address,
                reg,
                value: field_update(first_reply(replies), offset, mask, value),
            },
            BusAction::Done,
        ],
{
    let upd = seq![RegOp::Update { reg, offset, mask, value }];
    assert(bits_ops(b, reg, offset, mask, value) =~= seq![RegOp::SelectBank { bank: b }] + upd);
    lemma_select_bank_actions(bank, address, b, upd, reads, replies);
    assert(upd[0] == RegOp::Update { reg, offset, mask, value });
    assert(upd.drop_first() =~= Seq::<RegOp>::empty());
    let v = field_update(first_reply(replies), offset, mask, value);
    let e = upd.drop_first();
    assert(program_actions(bank_after_write(Some(b), reg, v), address, e, reads, later_replies(replies))
        == seq![BusAction::Done]);
    assert(program_actions(Some(b), address, upd, reads, replies) == seq![
        BusAction::Read { address, reg },
        BusAction::Write { address, reg, value: v },
    ] + program_actions(bank_after_write(Some(b), reg, v), address, e, reads, later_replies(replies)));
    assert(program_actions(Some(b), address, upd, reads, replies) =~= seq![
        BusAction::Read { address, reg },
        BusAction::Write { address, reg, value: v },
        BusAction::Done,
    ]);
}

/// Identification: the sensor bank is selected if needed and the product
/// id and version are read; the program goes on exactly when they are
/// `0x26` and `0x42`, and otherwise ends reporting them.
pub proof fn lemma_verify_id_actions(
    bank: Option<u8>,
    address: u8,
    rest: Seq<RegOp>,
    pid: u8,
    ver: u8,
    replies: Seq<u8>,
)
    ensures
        program_actions(bank, address, verify_id_ops() + rest, seq![], seq![pid, ver] + replies)
            == select_actions(bank, address, BANK_SENSOR) + seq![
            BusAction::Read { address, reg: REG_PID },
            BusAction::Read { address, reg: REG_VER },
        ] + if pid == EXPECTED_PID && ver == EXPECTED_VER {
            program_actions(Some(BANK_SENSOR), address, rest, seq![pid, ver], replies)
        } else {
            seq![BusAction::WrongId { pid, ver }]
        },
{
    let r1 = seq![RegOp::Read { reg: REG_PID }, RegOp::Read { reg: REG_VER }, RegOp::CheckId]
        + rest;
    assert(verify_id_ops() + rest =~= seq![RegOp::SelectBank { bank: BANK_SENSOR }] + r1);
    lemma_select_bank_actions(bank, address, BANK_SENSOR, r1, seq![], seq![pid, ver] + replies);
    let all = seq![pid, ver] + replies;
    assert(first_reply(all) == pid);
    assert(later_replies(all) =~= seq![ver] + replies);
    assert(first_reply(seq![ver] + replies) == ver);
    assert(later_replies(seq![ver] + replies) =~= replies);
    let r2 = r1.drop_first();
    let r3 = r2.drop_first();
    assert(r1[0] == RegOp::Read { reg: REG_PID });
    assert(r2[0] == RegOp::Read { reg: REG_VER });
    assert(r3[0] == RegOp::CheckId);
    assert(r3.drop_first() =~= rest);
    assert(seq![pid].push(ver) =~= seq![pid, ver]);
    let tail = if pid == EXPECTED_PID && ver == EXPECTED_VER {
        program_actions(Some(BANK_SENSOR), address, rest, seq![pid, ver], replies)
    } else {
        seq![BusAction::WrongId { pid, ver }]
    };
    assert(program_actions(Some(BANK_SENSOR), address, r3, seq![pid, ver], replies) == tail);
    assert(program_actions(Some(BANK_SENSOR), address, r2, seq![pid], seq![ver] + replies) == seq![
        BusAction::Read { address, reg: REG_VER },
    ] + program_actions(Some(BANK_SENSOR), address, r3, seq![pid].push(ver), replies));
    assert(program_actions(Some(BANK_SENSOR), address, r1, seq![], all) == seq![
        BusAction::Read { address, reg: REG_PID },
    ] + program_actions(Some(BANK_SENSOR), address, r2, seq![].push(pid), seq![ver] + replies));
    assert(seq![].push(pid) =~= seq![pid]);
    assert(program_actions(Some(BANK_SENSOR), address, r1, seq![], all) =~= seq![
        BusAction::Read { address, reg: REG_PID },
        BusAction::Read { address, reg: REG_VER },
    ] + tail);
}

/// A reset writes the software-reset bit of `COM7` (selecting the sensor
/// bank if needed) and waits 10 ms; afterwards no bank is known selected,
/// so the next bank selection writes `BANK_SEL`.
pub proof fn lemma_reset_actions(
    bank: Option<u8>,
    address: u8,
    rest: Seq<RegOp>,
    reads: Seq<u8>,
    replies: Seq<u8>,
)
    ensures
        program_actions(bank, address, reset_ops() + rest, reads, replies) == select_actions(
            bank,
            address,
            BANK_SENSOR,
        ) + seq![
            BusAction::Write { address, reg: COM7, value: COM7_SRST },
            BusAction::Delay { ms: 10 },
        ] + program_actions(None, address, rest, reads, replies),
{
    let r1 = seq![
        RegOp::Write { reg: COM7, value: COM7_SRST },
        RegOp::Delay { ms: 10 },
        RegOp::ForgetBank,
    ] + rest;
    assert(reset_ops() + rest =~= seq![RegOp::SelectBank { bank: BANK_SENSOR }] + r1);
    lemma_select_bank_actions(bank, address, BANK_SENSOR, r1, reads, replies);
    let r2 = r1.drop_first();
    let r3 = r2.drop_first();
    assert(r1[0] == RegOp::Write { reg: COM7, value: COM7_SRST });
    assert(r2[0] == RegOp::Delay { ms: 10 });
    assert(r3[0] == RegOp::ForgetBank);
    assert(r3.drop_first() =~= rest);
    assert(program_actions(Some(BANK_SENSOR), address, r3, reads, replies) == program_actions(
        None,
        address,
        rest,
        reads,
        replies,
    ));
    assert(program_actions(Some(BANK_SENSOR), address, r2, reads, replies) == seq![
        BusAction::Delay { ms: 10 },
    ] + program_actions(Some(BANK_SENSOR), address, r3, reads, replies));
    assert(program_actions(Some(BANK_SENSOR), address, r1, reads, replies) == seq![
        BusAction::Write { address, reg: COM7, value: COM7_SRST },
    ] + program_actions(
        bank_after_write(Some(BANK_SENSOR), COM7, COM7_SRST),
        address,
        r2,
        reads,
        replies,
    ));
    assert(program_actions(Some(BANK_SENSOR), address, r1, reads, replies) =~= seq![
        BusAction::Write { address, reg: COM7, value: COM7_SRST },
        BusAction::Delay { ms: 10 },
    ] + program_actions(None, address, rest, reads, replies));
}

/// Initialization first identifies the sensor: a device that is not an
/// OV2640 gets no write but the bank selection, and the program ends
/// reporting its id; an OV2640 is then reset, after which the common table,
/// the output configuration and the final wait follow with no bank known
/// selected.
pub proof fn lemma_init_actions(
    bank: Option<u8>,
    address: u8,
    config: OutputConfig,
    t: RegisterTables,
    pid: u8,
    ver: u8,
    replies: Seq<u8>,
)
    ensures
        ({
            let prefix = select_actions(bank, address, BANK_SENSOR) + seq![
                BusAction::Read { address, reg: REG_PID },
                BusAction::Read { address, reg: REG_VER },
            ];
            let after_reset = table_ops(t.settings_cif@) + output_ops(config, t) + seq![
                RegOp::Delay { ms: 100 },
            ];
            program_actions(bank, address, init_ops(config, t), seq![], seq![pid, ver] + replies)
                == prefix + if pid == EXPECTED_PID && ver == EXPECTED_VER {
                seq![
                    BusAction::Write { address, reg: COM7, value: COM7_SRST },
                    BusAction::Delay { ms: 10 },
                ] + program_actions(None, address, after_reset, seq![pid, ver], replies)
            } else {
                seq![BusAction::WrongId { pid, ver }]
            }
        }),
{
    let after_reset = table_ops(t.settings_cif@) + output_ops(config, t) + seq![
        RegOp::Delay { ms: 100 },
    ];
    let rest = reset_ops() + after_reset;
    assert(init_ops(config, t) =~= verify_id_ops() + rest);
    lemma_verify_id_actions(bank, address, rest, pid, ver, replies);
    lemma_reset_actions(Some(BANK_SENSOR), address, after_reset, seq![pid, ver], replies);
    assert(select_actions(Some(BANK_SENSOR), address, BANK_SENSOR) =~= seq![]);
    if pid == EXPECTED_PID && ver == EXPECTED_VER {
        assert(seq![] + seq![
            BusAction::Write { address, reg: COM7, value: COM7_SRST },
            BusAction::Delay { ms: 10 },
        ] + program_actions(None, address, after_reset, seq![pid, ver], replies) =~= seq![
            BusAction::Write { address, reg: COM7, value: COM7_SRST },
            BusAction::Delay { ms: 10 },
        ] + program_actions(None, address, after_reset, seq![pid, ver], replies));
    }
}

/// Where program `ops` leaves things when every transfer succeeds and
/// reads are answered by `replies`: the bank then known selected, the bytes
/// read, the replies not yet used, and whether it ran to its end (no
/// identification check failed).
pub open spec fn program_end(bank: Option<u8>, ops: Seq<RegOp>, reads: Seq<u8>, replies: Seq<u8>) -> (
    Option<u8>,
    Seq<u8>,
    Seq<u8>,
    bool,
)
    decreases ops.len(),
{
    if ops.len() == 0 {
        (bank, reads, replies, true)
    } else {
        let rest = ops.drop_first();
        match ops[0] {
            RegOp::Write { reg, value } => program_end(
                bank_after_write(bank, reg, value),
                rest,
                reads,
                replies,
            ),
            RegOp::Read { .. } => program_end(
                bank,
                rest,
                reads.push(first_reply(replies)),
                later_replies(replies),
            ),
            RegOp::SelectBank { bank: b } => program_end(Some(b), rest, reads, replies),
            RegOp::Update { reg, offset, mask, value } => program_end(
                bank_after_write(bank, reg, field_update(first_reply(replies), offset, mask, value)),
                rest,
                reads,
                later_replies(replies),
            ),
            RegOp::Delay { .. } => program_end(bank, rest, reads, replies),
            RegOp::ForgetBank => program_end(None, rest, reads, replies),
            RegOp::CheckId => if id_matches(reads) {
                program_end(bank, rest, reads, replies)
            } else {
                (bank, reads, replies, false)
            },
        }
    }
}

proof fn lemma_program_actions_nonempty(
    bank: Option<u8>,
    address: u8,
    ops: Seq<RegOp>,
    reads: Seq<u8>,
    replies: Seq<u8>,
)
    ensures
        program_actions(bank, address, ops, reads, replies).len() >= 1,
    decreases ops.len(),
{
    if ops.len() > 0 {
        let rest = ops.drop_first();
        match ops[0] {
            RegOp::Write { reg, value } => lemma_program_actions_nonempty(
                bank_after_write(bank, reg, value),
                address,
                rest,
                reads,
                replies,
            ),
            RegOp::Read { .. } => lemma_program_actions_nonempty(
                bank,
                address,
                rest,
                reads.push(first_reply(replies)),
                later_replies(replies),
            ),
            RegOp::SelectBank { bank: b } => {
                lemma_program_actions_nonempty(bank, address, rest, reads, replies);
                lemma_program_actions_nonempty(Some(b), address, rest, reads, replies);
            },
            RegOp::Update { reg, offset, mask, value } => lemma_program_actions_nonempty(
                bank_after_write(bank, reg, field_update(first_reply(replies), offset, mask, value)),
                address,
                rest,
                reads,
                later_replies(replies),
            ),
            RegOp::Delay { .. } => lemma_program_actions_nonempty(bank, address, rest, reads, replies),
            RegOp::ForgetBank => lemma_program_actions_nonempty(None, address, rest, reads, replies),
            RegOp::CheckId => lemma_program_actions_nonempty(bank, address, rest, reads, replies),
        }
    }
}

/// Running two programs one after the other: the actions of `a + b` are
/// those of `a` without its final `Done`, followed by those of `b` from
/// where `a` left off; when `a` stops at a failed identification check,
/// they are just those of `a`.
pub proof fn lemma_program_concat(
    bank: Option<u8>,
    address: u8,
    a: Seq<RegOp>,
    b: Seq<RegOp>,
    reads: Seq<u8>,
    replies: Seq<u8>,
)
    ensures
        ({
            let (bank2, reads2, replies2, ran) = program_end(bank, a, reads, replies);
            program_actions(bank, address, a + b, reads, replies) == if ran {
                program_actions(bank, address, a, reads, replies).drop_last() + program_actions(
                    bank2,
                    address,
                    b,
                    reads2,
                    replies2,
                )
            } else {
                program_actions(bank, address, a, reads, replies)
            }
        }),
    decreases a.len(),
{
    if a.len() == 0 {
        assert(a + b =~= b);
        assert(program_actions(bank, address, a, reads, replies).drop_last() =~= seq![]);
        assert(seq![] + program_actions(bank, address, b, reads, replies) =~= program_actions(
            bank,
            address,
            b,
            reads,
            replies,
        ));
    } else {
        let rest = a.drop_first();
        assert((a + b)[0] == a[0]);
        assert((a + b).drop_first() =~= rest + b);
        match a[0] {
            RegOp::Write { reg, value } => {
                let nb = bank_after_write(bank, reg, value);
                lemma_program_concat(nb, address, rest, b, reads, replies);
                lemma_program_actions_nonempty(nb, address, rest, reads, replies);
                let p = seq![BusAction::Write { address, reg, value }];
                let x = program_actions(nb, address, rest, reads, replies);
                assert((p + x).drop_last() =~= p + x.drop_last());
                let (bank2, reads2, replies2, ran) = program_end(nb, rest, reads, replies);
                if ran {
                    assert(p + (x.drop_last() + program_actions(bank2, address, b, reads2, replies2))
                        =~= (p + x).drop_last() + program_actions(bank2, address, b, reads2, replies2));
                }
            },
            RegOp::Read { reg } => {
                let nr = reads.push(first_reply(replies));
                let nrep = later_replies(replies);
                lemma_program_concat(bank, address, rest, b, nr, nrep);
                lemma_program_actions_nonempty(bank, address, rest, nr, nrep);
                let p = seq![BusAction::Read { address, reg }];
                let x = program_actions(bank, address, rest, nr, nrep);
                assert((p + x).drop_last() =~= p + x.drop_last());
                let (bank2, reads2, replies2, ran) = program_end(bank, rest, nr, nrep);
                if ran {
                    assert(p + (x.drop_last() + program_actions(bank2, address, b, reads2, replies2))
                        =~= (p + x).drop_last() + program_actions(bank2, address, b, reads2, replies2));
                }
            },
            RegOp::SelectBank { bank: bk } => {
                lemma_program_concat(Some(bk), address, rest, b, reads, replies);
                lemma_program_actions_nonempty(Some(bk), address, rest, reads, replies);
                if bank != Some(bk) {
                    let p = seq![BusAction::Write { address, reg: BANK_SEL, value: bk }];
                    let x = program_actions(Some(bk), address, rest, reads, replies);
                    assert((p + x).drop_last() =~= p + x.drop_last());
                    let (bank2, reads2, replies2, ran) = program_end(Some(bk), rest, reads, replies);
                    if ran {
                        assert(p + (x.drop_last() + program_actions(bank2, address, b, reads2, replies2))
                            =~= (p + x).drop_last() + program_actions(
                            bank2,
                            address,
                            b,
                            reads2,
                            replies2,
                        ));
                    }
                }
            },
            RegOp::Update { reg, offset, mask, value } => {
                let v = field_update(first_reply(replies), offset, mask, value);
                let nb = bank_after_write(bank, reg, v);
                let nrep = later_replies(replies);
                lemma_program_concat(nb, address, rest, b, reads, nrep);
                lemma_program_actions_nonempty(nb, address, rest, reads, nrep);
                let p = seq![BusAction::Read { address, reg }, BusAction::Write { address, reg, value: v }];
                let x = program_actions(nb, address, rest, reads, nrep);
                assert((p + x).drop_last() =~= p + x.drop_last());
                let (bank2, reads2, replies2, ran) = program_end(nb, rest, reads, nrep);
                if ran {
                    assert(p + (x.drop_last() + program_actions(bank2, address, b, reads2, replies2))
                        =~= (p + x).drop_last() + program_actions(bank2, address, b, reads2, replies2));
                }
            },
            RegOp::Delay { ms } => {
                lemma_program_concat(bank, address, rest, b, reads, replies);
                lemma_program_actions_nonempty(bank, address, rest, reads, replies);
                let p = seq![BusAction::Delay { ms }];
                let x = program_actions(bank, address, rest, reads, replies);
                assert((p + x).drop_last() =~= p + x.drop_last());
                let (bank2, reads2, replies2, ran) = program_end(bank, rest, reads, replies);
                if ran {
                    assert(p + (x.drop_last() + program_actions(bank2, address, b, reads2, replies2))
                        =~= (p + x).drop_last() + program_actions(bank2, address, b, reads2, replies2));
                }
            },
            RegOp::ForgetBank => {
                lemma_program_concat(None, address, rest, b, reads, replies);
            },
            RegOp::CheckId => {
                if id_matches(reads) {
                    lemma_program_concat(bank, address, rest, b, reads, replies);
                }
            },
        }
    }
}

/// Number of writes among `actions`.
pub open spec fn count_writes(actions: Seq<BusAction>) -> nat
    decreases actions.len(),
{
    if actions.len() == 0 {
        0
    } else {
        (if actions[0] is Write {
            1nat
        } else {
            0nat
        }) + count_writes(actions.drop_first())
    }
}

/// The handle and the run after successive calls of `Ov2640::advance` as
/// in [`drive`], up to the final action.
pub open spec fn drive_end(s: SensorState, r: RunState, replies: Seq<u8>, fuel: nat) -> (
    SensorState,
    RunState,
)
    decreases fuel,
{
    if fuel == 0 {
        (s, r)
    } else {
        let reply = if takes_reply(r.pending) {
            first_reply(replies)
        } else {
            0
        };
        let next_replies = if takes_reply(r.pending) {
            later_replies(replies)
        } else {
            replies
        };
        let (s2, r2, a) = advance_spec(s, r, reply);
        if is_final(a) {
            (s2, r2)
        } else {
            drive_end(s2, r2, next_replies, (fuel - 1) as nat)
        }
    }
}

proof fn lemma_drive_end_writes(s: SensorState, r: RunState, replies: Seq<u8>, fuel: nat)
    requires
        0 <= r.next <= r.ops.len(),
        remaining_actions(s.bank, s.address, r.ops, r.next, r.pending, r.reads, replies).len()
            <= fuel,
    ensures
        drive_end(s, r, replies, fuel).1.writes as int == (r.writes + (if r.pending is Write {
            1int
        } else {
            0int
        }) + count_writes(
            remaining_actions(s.bank, s.address, r.ops, r.next, r.pending, r.reads, replies),
        )) % 0x1_0000,
    decreases fuel,
{
    lemma_advance_actions(s, r, replies);
    let reply = if takes_reply(r.pending) {
        first_reply(replies)
    } else {
        0
    };
    let next_replies = if takes_reply(r.pending) {
        later_replies(replies)
    } else {
        replies
    };
    let (s2, r2, a) = advance_spec(s, r, reply);
    let rem = remaining_actions(s.bank, s.address, r.ops, r.next, r.pending, r.reads, replies);
    let k: int = if r.pending is Write {
        1
    } else {
        0
    };
    assert(r2.writes as int == (r.writes + k) % 0x1_0000);
    if is_final(a) {
        assert(rem =~= seq![a]);
        assert(rem[0] == a);
        assert(rem.drop_first() =~= Seq::<BusAction>::empty());
        assert(count_writes(rem.drop_first()) == 0);
        assert(count_writes(rem) == 0);
    } else {
        let rem2 = remaining_actions(s2.bank, s2.address, r2.ops, r2.next, r2.pending, r2.reads, next_replies);
        assert(rem.drop_first() =~= rem2);
        lemma_drive_end_writes(s2, r2, next_replies, (fuel - 1) as nat);
        let k2: int = if r2.pending is Write {
            1
        } else {
            0
        };
        assert(count_writes(rem) == k2 + count_writes(rem2));
        vstd::arithmetic::div_mod::lemma_add_mod_noop(r.writes + k, k2 + count_writes(rem2), 0x1_0000);
        vstd::arithmetic::div_mod::lemma_mod_twice(r.writes + k, 0x1_0000);
        vstd::arithmetic::div_mod::lemma_add_mod_noop(r2.writes as int, k2 + count_writes(rem2), 0x1_0000);
    }
}

/// A run counts the writes of its program: driving a new run of `ops` as in
/// [`drive`], given calls enough, ends with `writes` equal to the number of
/// writes among its actions (modulo 2^16, the counter wrapping), the count
/// that `write_regs` reports.
pub proof fn lemma_run_counts_writes(s: SensorState, ops: Seq<RegOp>, replies: Seq<u8>, fuel: nat)
    requires
        program_actions(s.bank, s.address, ops, seq![], replies).len() <= fuel,
    ensures
        drive_end(
            s,
            RunState { ops, next: 0, pending: Pending::Idle, reads: seq![], writes: 0 },
            replies,
            fuel,
        ).1.writes as int == count_writes(program_actions(s.bank, s.address, ops, seq![], replies))
            % 0x1_0000,
{
    assert(ops.skip(0) =~= ops);
    lemma_drive_end_writes(
        s,
        RunState { ops, next: 0, pending: Pending::Idle, reads: seq![], writes: 0 },
        replies,
        fuel,
    );
}

} // verus!
