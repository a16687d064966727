//! Transaction records: the five-kind transaction union with its per-version
//! field sets, the matching receipt union, the hash-to-location index record,
//! and the views built from them.

use vstd::prelude::*;
use crate::codec::spec_varu64;
use crate::codec::spec_varu128;
use crate::codec::spec_bytebuf;
use crate::codec::spec_buf_list;
use crate::codec::spec_string;
use crate::codec::spec_opt_tag;
use crate::codec::read_varu64;
use crate::codec::read_varu32;
use crate::codec::read_varu16;
use crate::codec::read_varu128;
use crate::codec::read_bytebuf;
use crate::codec::read_buf_list;
use crate::codec::read_string;
use crate::codec::read_opt_tag;
use crate::block::spec_enum_tag;
use crate::block::read_enum_tag;
use crate::codec::spec_varu32;
use crate::felt::felt_hex_of;
use crate::felt::felt_hex;
use crate::felt::felt_hex_list;
use crate::felt::spec_decimal;
use crate::felt::u64_to_decimal;

verus! {

/// The five transaction kinds.
#[derive(Debug, Clone, Copy, PartialEq, Eq, Structural)]
pub enum TransactionType {
    Invoke,
    L1Handler,
    Declare,
    Deploy,
    DeployAccount,
}

impl TransactionType {
    /// The upper-case label used in API responses.
    pub fn label(&self) -> (r: String)
        ensures
            r@ == spec_type_label(*self),
    {
        proof {
            reveal_strlit("INVOKE");
            reveal_strlit("L1_HANDLER");
            reveal_strlit("DECLARE");
            reveal_strlit("DEPLOY");
            reveal_strlit("DEPLOY_ACCOUNT");
        }
        match self {
            TransactionType::Invoke => "INVOKE".to_owned(),
            TransactionType::L1Handler => "L1_HANDLER".to_owned(),
            TransactionType::Declare => "DECLARE".to_owned(),
            TransactionType::Deploy => "DEPLOY".to_owned(),
            TransactionType::DeployAccount => "DEPLOY_ACCOUNT".to_owned(),
        }
    }
}

/// The label of each transaction kind.
pub open spec fn spec_type_label(t: TransactionType) -> Seq<char> {
    match t {
        TransactionType::Invoke => "INVOKE"@,
        TransactionType::L1Handler => "L1_HANDLER"@,
        TransactionType::Declare => "DECLARE"@,
        TransactionType::Deploy => "DEPLOY"@,
        TransactionType::DeployAccount => "DEPLOY_ACCOUNT"@,
    }
}

/// How a transaction finished: success, or a revert with a free-text reason.
#[derive(Debug, Clone, PartialEq, Eq)]
pub enum ExecutionStatus {
    Succeeded,
    Reverted(String),
}

/// The same outcome in ghost form.
pub enum ExecStatusV {
    Succeeded,
    Reverted(Seq<char>),
}

impl View for ExecutionStatus {
    type V = ExecStatusV;

    open spec fn view(&self) -> ExecStatusV {
        match self {
            ExecutionStatus::Succeeded => ExecStatusV::Succeeded,
            ExecutionStatus::Reverted(reason) => ExecStatusV::Reverted(reason@),
        }
    }
}

/// The fee unit of a receipt.
#[derive(Debug, Clone, Copy, PartialEq, Eq, Structural)]
pub enum FeeUnit {
    Wei,
    Fri,
}

/// A decoded transaction body: one variant per kind and version, each with
/// the fields this crate exposes. Decoding still validates the full field
/// set of every variant.
pub enum TxBody {
    InvokeV0 { contract_address: Vec<u8>, signature: Vec<Vec<u8>>, calldata: Vec<Vec<u8>> },
    InvokeV1 { sender_address: Vec<u8>, calldata: Vec<Vec<u8>>, signature: Vec<Vec<u8>>, nonce: Vec<u8> },
    InvokeV3 { sender_address: Vec<u8>, calldata: Vec<Vec<u8>>, signature: Vec<Vec<u8>>, nonce: Vec<u8> },
    L1Handler { version: Vec<u8>, nonce: u64, contract_address: Vec<u8>, calldata: Vec<Vec<u8>> },
    DeclareV0 { sender_address: Vec<u8>, signature: Vec<Vec<u8>> },
    DeclareV1 { sender_address: Vec<u8>, signature: Vec<Vec<u8>>, nonce: Vec<u8> },
    DeclareV2 { sender_address: Vec<u8>, signature: Vec<Vec<u8>>, nonce: Vec<u8> },
    DeclareV3 { sender_address: Vec<u8>, signature: Vec<Vec<u8>>, nonce: Vec<u8> },
    Deploy { version: Vec<u8>, calldata: Vec<Vec<u8>> },
    DeployAccountV1 { calldata: Vec<Vec<u8>>, signature: Vec<Vec<u8>>, nonce: Vec<u8> },
    DeployAccountV3 { calldata: Vec<Vec<u8>>, signature: Vec<Vec<u8>>, nonce: Vec<u8> },
}

/// The same body in ghost form.
pub enum TxBodyV {
    InvokeV0 { contract_address: Seq<u8>, signature: Seq<Seq<u8>>, calldata: Seq<Seq<u8>> },
    InvokeV1 { sender_address: Seq<u8>, calldata: Seq<Seq<u8>>, signature: Seq<Seq<u8>>, nonce: Seq<u8> },
    InvokeV3 { sender_address: Seq<u8>, calldata: Seq<Seq<u8>>, signature: Seq<Seq<u8>>, nonce: Seq<u8> },
    L1Handler { version: Seq<u8>, nonce: u64, contract_address: Seq<u8>, calldata: Seq<Seq<u8>> },
    DeclareV0 { sender_address: Seq<u8>, signature: Seq<Seq<u8>> },
    DeclareV1 { sender_address: Seq<u8>, signature: Seq<Seq<u8>>, nonce: Seq<u8> },
    DeclareV2 { sender_address: Seq<u8>, signature: Seq<Seq<u8>>, nonce: Seq<u8> },
    DeclareV3 { sender_address: Seq<u8>, signature: Seq<Seq<u8>>, nonce: Seq<u8> },
    Deploy { version: Seq<u8>, calldata: Seq<Seq<u8>> },
    DeployAccountV1 { calldata: Seq<Seq<u8>>, signature: Seq<Seq<u8>>, nonce: Seq<u8> },
    DeployAccountV3 { calldata: Seq<Seq<u8>>, signature: Seq<Seq<u8>>, nonce: Seq<u8> },
}

impl View for TxBody {
    type V = TxBodyV;

    open spec fn view(&self) -> TxBodyV {
        match self {
            TxBody::InvokeV0 { contract_address, signature, calldata } => TxBodyV::InvokeV0 {
                contract_address: contract_address@,
                signature: signature.deep_view(),
                calldata: calldata.deep_view(),
            },
            TxBody::InvokeV1 { sender_address, calldata, signature, nonce } => TxBodyV::InvokeV1 {
                sender_address: sender_address@,
                calldata: calldata.deep_view(),
                signature: signature.deep_view(),
                nonce: nonce@,
            },
            TxBody::InvokeV3 { sender_address, calldata, signature, nonce } => TxBodyV::InvokeV3 {
                sender_address: sender_address@,
                calldata: calldata.deep_view(),
                signature: signature.deep_view(),
                nonce: nonce@,
            },
            TxBody::L1Handler { version, nonce, contract_address, calldata } => TxBodyV::L1Handler {
                version: version@,
                nonce: *nonce,
                contract_address: contract_address@,
                calldata: calldata.deep_view(),
            },
            TxBody::DeclareV0 { sender_address, signature } => TxBodyV::DeclareV0 {
                sender_address: sender_address@,
                signature: signature.deep_view(),
            },
            TxBody::DeclareV1 { sender_address, signature, nonce } => TxBodyV::DeclareV1 {
                sender_address: sender_address@,
                signature: signature.deep_view(),
                nonce: nonce@,
            },
            TxBody::DeclareV2 { sender_address, signature, nonce } => TxBodyV::DeclareV2 {
                sender_address: sender_address@,
                signature: signature.deep_view(),
                nonce: nonce@,
            },
            TxBody::DeclareV3 { sender_address, signature, nonce } => TxBodyV::DeclareV3 {
                sender_address: sender_address@,
                signature: signature.deep_view(),
                nonce: nonce@,
            },
            TxBody::Deploy { version, calldata } => TxBodyV::Deploy {
                version: version@,
                calldata: calldata.deep_view(),
            },
            TxBody::DeployAccountV1 { calldata, signature, nonce } => TxBodyV::DeployAccountV1 {
                calldata: calldata.deep_view(),
                signature: signature.deep_view(),
                nonce: nonce@,
            },
            TxBody::DeployAccountV3 { calldata, signature, nonce } => TxBodyV::DeployAccountV3 {
                calldata: calldata.deep_view(),
                signature: signature.deep_view(),
                nonce: nonce@,
            },
        }
    }
}

/// A message sent to L1, as raw felts.
pub struct MessageRec {
    pub from_address: Vec<u8>,
    pub to_address: Vec<u8>,
    pub payload: Vec<Vec<u8>>,
}

/// The same message in ghost form.
pub struct MessageRecV {
    pub from_address: Seq<u8>,
    pub to_address: Seq<u8>,
    pub payload: Seq<Seq<u8>>,
}

impl View for MessageRec {
    type V = MessageRecV;

    open spec fn view(&self) -> MessageRecV {
        MessageRecV {
            from_address: self.from_address@,
            to_address: self.to_address@,
            payload: self.payload.deep_view(),
        }
    }
}

impl DeepView for MessageRec {
    type V = MessageRecV;

    open spec fn deep_view(&self) -> MessageRecV {
        self@
    }
}

/// An emitted event, as raw felts.
pub struct EventRec {
    pub from_address: Vec<u8>,
    pub keys: Vec<Vec<u8>>,
    pub data: Vec<Vec<u8>>,
}

/// The same event in ghost form.
pub struct EventRecV {
    pub from_address: Seq<u8>,
    pub keys: Seq<Seq<u8>>,
    pub data: Seq<Seq<u8>>,
}

impl View for EventRec {
    type V = EventRecV;

    open spec fn view(&self) -> EventRecV {
        EventRecV {
            from_address: self.from_address@,
            keys: self.keys.deep_view(),
            data: self.data.deep_view(),
        }
    }
}

impl DeepView for EventRec {
    type V = EventRecV;

    open spec fn deep_view(&self) -> EventRecV {
        self@
    }
}

/// A decoded receipt: the fields common to all five receipt kinds. The
/// kind-specific extras (the L1 message hash, the deployed contract address)
/// are validated and dropped.
pub struct ReceiptBody {
    pub tx_hash: Vec<u8>,
    pub fee_amount: Vec<u8>,
    pub fee_unit: FeeUnit,
    pub messages: Vec<MessageRec>,
    pub events: Vec<EventRec>,
    pub result: ExecutionStatus,
}

/// The same receipt in ghost form.
pub struct ReceiptBodyV {
    pub tx_hash: Seq<u8>,
    pub fee_amount: Seq<u8>,
    pub fee_unit: FeeUnit,
    pub messages: Seq<MessageRecV>,
    pub events: Seq<EventRecV>,
    pub result: ExecStatusV,
}

impl View for ReceiptBody {
    type V = ReceiptBodyV;

    open spec fn view(&self) -> ReceiptBodyV {
        ReceiptBodyV {
            tx_hash: self.tx_hash@,
            fee_amount: self.fee_amount@,
            fee_unit: self.fee_unit,
            messages: self.messages.deep_view(),
            events: self.events.deep_view(),
            result: self.result@,
        }
    }
}

/// A whole transaction-with-receipt record.
pub struct TransactionRecord {
    pub body: TxBody,
    pub receipt: ReceiptBody,
}

/// The same record in ghost form.
pub struct TransactionRecordV {
    pub body: TxBodyV,
    pub receipt: ReceiptBodyV,
}

impl View for TransactionRecord {
    type V = TransactionRecordV;

    open spec fn view(&self) -> TransactionRecordV {
        TransactionRecordV { body: self.body@, receipt: self.receipt@ }
    }
}

// ---- the wire grammar ----

/// One resource bound: an amount and a price.
pub open spec fn spec_skip_resource_bounds(s: Seq<u8>, pos: int) -> Option<int> {
    match spec_varu64(s, pos) {
        Some((_, p)) => match spec_varu128(s, p) {
            Some((_, q)) => Some(q),
            None => None,
        },
        None => None,
    }
}

/// The resource-bound mapping: L1 gas, L2 gas, and an optional L1 data gas.
pub open spec fn spec_skip_rbm(s: Seq<u8>, pos: int) -> Option<int> {
    match spec_skip_resource_bounds(s, pos) {
        Some(p1) => match spec_skip_resource_bounds(s, p1) {
            Some(p2) => match spec_opt_tag(s, p2) {
                Some((present, p3)) => if present {
                    spec_skip_resource_bounds(s, p3)
                } else {
                    Some(p3)
                },
                None => None,
            },
            None => None,
        },
        None => None,
    }
}

/// The shared tail of a version-3 transaction: resource bounds, tip,
/// paymaster data, optionally account-deployment data, and two
/// data-availability mode words.
pub open spec fn spec_skip_v3_tail(s: Seq<u8>, pos: int, with_account_deployment: bool) -> Option<
    int,
> {
    match spec_skip_rbm(s, pos) {
        Some(p1) => match spec_varu64(s, p1) {
            Some((_, p2)) => match spec_buf_list(s, p2) {
                Some((_, p3)) => {
                    let p4opt = if with_account_deployment {
                        match spec_buf_list(s, p3) {
                            Some((_, q)) => Some(q),
                            None => None,
                        }
                    } else {
                        Some(p3)
                    };
                    match p4opt {
                        Some(p4) => match crate::codec::spec_varu32(s, p4) {
                            Some((_, p5)) => match crate::codec::spec_varu32(s, p5) {
                                Some((_, p6)) => Some(p6),
                                None => None,
                            },
                            None => None,
                        },
                        None => None,
                    }
                },
                None => None,
            },
            None => None,
        },
        None => None,
    }
}

/// An invoke transaction: a version tag, then that version's field set.
pub open spec fn spec_invoke(s: Seq<u8>, pos: int) -> Option<(TxBodyV, int)> {
    match spec_enum_tag(s, pos, 3) {
        Some((v, p)) => {
            if v == 0 {
                match spec_bytebuf(s, p) {
                    Some((_max_fee, p1)) => match spec_buf_list(s, p1) {
                        Some((signature, p2)) => match spec_bytebuf(s, p2) {
                            Some((contract_address, p3)) => match spec_bytebuf(s, p3) {
                                Some((_entry, p4)) => match spec_buf_list(s, p4) {
                                    Some((calldata, p5)) => Some(
                                        (
                                            TxBodyV::InvokeV0 {
                                                contract_address,
                                                signature,
                                                calldata,
                                            },
                                            p5,
                                        ),
                                    ),
                                    None => None,
                                },
                                None => None,
                            },
                            None => None,
                        },
                        None => None,
                    },
                    None => None,
                }
            } else if v == 1 {
                match spec_bytebuf(s, p) {
                    Some((sender_address, p1)) => match spec_buf_list(s, p1) {
                        Some((calldata, p2)) => match spec_bytebuf(s, p2) {
                            Some((_max_fee, p3)) => match spec_buf_list(s, p3) {
                                Some((signature, p4)) => match spec_bytebuf(s, p4) {
                                    Some((nonce, p5)) => Some(
                                        (
                                            TxBodyV::InvokeV1 {
                                                sender_address,
                                                calldata,
                                                signature,
                                                nonce,
                                            },
                                            p5,
                                        ),
                                    ),
                                    None => None,
                                },
                                None => None,
                            },
                            None => None,
                        },
                        None => None,
                    },
                    None => None,
                }
            } else {
                match spec_bytebuf(s, p) {
                    Some((sender_address, p1)) => match spec_buf_list(s, p1) {
                        Some((calldata, p2)) => match spec_buf_list(s, p2) {
                            Some((signature, p3)) => match spec_bytebuf(s, p3) {
                                Some((nonce, p4)) => match spec_skip_v3_tail(s, p4, true) {
                                    Some(p5) => Some(
                                        (
                                            TxBodyV::InvokeV3 {
                                                sender_address,
                                                calldata,
                                                signature,
                                                nonce,
                                            },
                                            p5,
                                        ),
                                    ),
                                    None => None,
                                },
                                None => None,
                            },
                            None => None,
                        },
                        None => None,
                    },
                    None => None,
                }
            }
        },
        None => None,
    }
}

/// An L1-handler transaction; it carries no signature.
pub open spec fn spec_l1_handler(s: Seq<u8>, pos: int) -> Option<(TxBodyV, int)> {
    match spec_bytebuf(s, pos) {
        Some((version, p1)) => match spec_varu64(s, p1) {
            Some((nonce, p2)) => match spec_bytebuf(s, p2) {
                Some((contract_address, p3)) => match spec_bytebuf(s, p3) {
                    Some((_entry, p4)) => match spec_buf_list(s, p4) {
                        Some((calldata, p5)) => Some(
                            (TxBodyV::L1Handler { version, nonce, contract_address, calldata }, p5),
                        ),
                        None => None,
                    },
                    None => None,
                },
                None => None,
            },
            None => None,
        },
        None => None,
    }
}

/// A declare transaction: a version tag, then that version's field set.
pub open spec fn spec_declare(s: Seq<u8>, pos: int) -> Option<(TxBodyV, int)> {
    match spec_enum_tag(s, pos, 4) {
        Some((v, p)) => {
            if v == 0 {
                match spec_bytebuf(s, p) {
                    Some((sender_address, p1)) => match spec_bytebuf(s, p1) {
                        Some((_max_fee, p2)) => match spec_buf_list(s, p2) {
                            Some((signature, p3)) => match spec_bytebuf(s, p3) {
                                Some((_class, p4)) => Some(
                                    (TxBodyV::DeclareV0 { sender_address, signature }, p4),
                                ),
                                None => None,
                            },
                            None => None,
                        },
                        None => None,
                    },
                    None => None,
                }
            } else if v == 1 {
                match spec_bytebuf(s, p) {
                    Some((sender_address, p1)) => match spec_bytebuf(s, p1) {
                        Some((_max_fee, p2)) => match spec_buf_list(s, p2) {
                            Some((signature, p3)) => match spec_bytebuf(s, p3) {
                                Some((nonce, p4)) => match spec_bytebuf(s, p4) {
                                    Some((_class, p5)) => Some(
                                        (TxBodyV::DeclareV1 { sender_address, signature, nonce }, p5),
                                    ),
                                    None => None,
                                },
                                None => None,
                            },
                            None => None,
                        },
                        None => None,
                    },
                    None => None,
                }
            } else if v == 2 {
                match spec_bytebuf(s, p) {
                    Some((sender_address, p1)) => match spec_bytebuf(s, p1) {
                        Some((_compiled, p2)) => match spec_bytebuf(s, p2) {
                            Some((_max_fee, p3)) => match spec_buf_list(s, p3) {
                                Some((signature, p4)) => match spec_bytebuf(s, p4) {
                                    Some((nonce, p5)) => match spec_bytebuf(s, p5) {
                                        Some((_class, p6)) => Some(
                                            (
                                                TxBodyV::DeclareV2 {
                                                    sender_address,
                                                    signature,
                                                    nonce,
                                                },
                                                p6,
                                            ),
                                        ),
                                        None => None,
                                    },
                                    None => None,
                                },
                                None => None,
                            },
                            None => None,
                        },
                        None => None,
                    },
                    None => None,
                }
            } else {
                match spec_bytebuf(s, p) {
                    Some((sender_address, p1)) => match spec_bytebuf(s, p1) {
                        Some((_compiled, p2)) => match spec_buf_list(s, p2) {
                            Some((signature, p3)) => match spec_bytebuf(s, p3) {
                                Some((nonce, p4)) => match spec_bytebuf(s, p4) {
                                    Some((_class, p5)) => match spec_skip_v3_tail(s, p5, true) {
                                        Some(p6) => Some(
                                            (
                                                TxBodyV::DeclareV3 {
                                                    sender_address,
                                                    signature,
                                                    nonce,
                                                },
                                                p6,
                                            ),
                                        ),
                                        None => None,
                                    },
                                    None => None,
                                },
                                None => None,
                            },
                            None => None,
                        },
                        None => None,
                    },
                    None => None,
                }
            }
        },
        None => None,
    }
}

/// A deploy transaction; it has neither sender nor nonce.
pub open spec fn spec_deploy(s: Seq<u8>, pos: int) -> Option<(TxBodyV, int)> {
    match spec_bytebuf(s, pos) {
        Some((version, p1)) => match spec_bytebuf(s, p1) {
            Some((_class, p2)) => match spec_bytebuf(s, p2) {
                Some((_salt, p3)) => match spec_buf_list(s, p3) {
                    Some((calldata, p4)) => Some((TxBodyV::Deploy { version, calldata }, p4)),
                    None => None,
                },
                None => None,
            },
            None => None,
        },
        None => None,
    }
}

/// A deploy-account transaction: a version tag, then that version's fields.
pub open spec fn spec_deploy_account(s: Seq<u8>, pos: int) -> Option<(TxBodyV, int)> {
    match spec_enum_tag(s, pos, 2) {
        Some((v, p)) => {
            if v == 0 {
                match spec_bytebuf(s, p) {
                    Some((_max_fee, p1)) => match spec_buf_list(s, p1) {
                        Some((signature, p2)) => match spec_bytebuf(s, p2) {
                            Some((nonce, p3)) => match spec_bytebuf(s, p3) {
                                Some((_salt, p4)) => match spec_buf_list(s, p4) {
                                    Some((calldata, p5)) => match spec_bytebuf(s, p5) {
                                        Some((_class, p6)) => Some(
                                            (
                                                TxBodyV::DeployAccountV1 {
                                                    calldata,
                                                    signature,
                                                    nonce,
                                                },
                                                p6,
                                            ),
                                        ),
                                        None => None,
                                    },
                                    None => None,
                                },
                                None => None,
                            },
                            None => None,
                        },
                        None => None,
                    },
                    None => None,
                }
            } else {
                match spec_buf_list(s, p) {
                    Some((signature, p1)) => match spec_bytebuf(s, p1) {
                        Some((nonce, p2)) => match spec_bytebuf(s, p2) {
                            Some((_salt, p3)) => match spec_buf_list(s, p3) {
                                Some((calldata, p4)) => match spec_bytebuf(s, p4) {
                                    Some((_class, p5)) => match spec_skip_v3_tail(s, p5, false) {
                                        Some(p6) => Some(
                                            (
                                                TxBodyV::DeployAccountV3 {
                                                    calldata,
                                                    signature,
                                                    nonce,
                                                },
                                                p6,
                                            ),
                                        ),
                                        None => None,
                                    },
                                    None => None,
                                },
                                None => None,
                            },
                            None => None,
                        },
                        None => None,
                    },
                    None => None,
                }
            }
        },
        None => None,
    }
}

/// A transaction body: a kind tag, then that kind's encoding.
pub open spec fn spec_tx_body(s: Seq<u8>, pos: int) -> Option<(TxBodyV, int)> {
    match spec_enum_tag(s, pos, 5) {
        Some((t, p)) => if t == 0 {
            spec_invoke(s, p)
        } else if t == 1 {
            spec_l1_handler(s, p)
        } else if t == 2 {
            spec_declare(s, p)
        } else if t == 3 {
            spec_deploy(s, p)
        } else {
            spec_deploy_account(s, p)
        },
        None => None,
    }
}

/// A fee payment: an amount and a unit tag (Wei or Fri).
pub open spec fn spec_fee(s: Seq<u8>, pos: int) -> Option<((Seq<u8>, FeeUnit), int)> {
    match spec_bytebuf(s, pos) {
        Some((amount, p)) => match spec_enum_tag(s, p, 2) {
            Some((u, q)) => Some(
                ((amount, if u == 0 {
                    FeeUnit::Wei
                } else {
                    FeeUnit::Fri
                }), q),
            ),
            None => None,
        },
        None => None,
    }
}

/// One message to L1.
pub open spec fn spec_message(s: Seq<u8>, pos: int) -> Option<(MessageRecV, int)> {
    match spec_bytebuf(s, pos) {
        Some((from_address, p1)) => match spec_bytebuf(s, p1) {
            Some((to_address, p2)) => match spec_buf_list(s, p2) {
                Some((payload, p3)) => Some(
                    (MessageRecV { from_address, to_address, payload }, p3),
                ),
                None => None,
            },
            None => None,
        },
        None => None,
    }
}

/// `n` consecutive messages.
pub open spec fn spec_messages(s: Seq<u8>, pos: int, n: nat) -> Option<(Seq<MessageRecV>, int)>
    decreases n,
{
    if n == 0 {
        Some((Seq::empty(), pos))
    } else {
        match spec_message(s, pos) {
            Some((m, p)) => match spec_messages(s, p, (n - 1) as nat) {
                Some((rest, q)) => Some((seq![m] + rest, q)),
                None => None,
            },
            None => None,
        }
    }
}

/// The message list: a count, then that many messages.
pub open spec fn spec_message_list(s: Seq<u8>, pos: int) -> Option<(Seq<MessageRecV>, int)> {
    match spec_varu64(s, pos) {
        Some((n, p)) => if n <= usize::MAX as u64 {
            spec_messages(s, p, n as nat)
        } else {
            None
        },
        None => None,
    }
}

/// One emitted event.
pub open spec fn spec_event(s: Seq<u8>, pos: int) -> Option<(EventRecV, int)> {
    match spec_bytebuf(s, pos) {
        Some((from_address, p1)) => match spec_buf_list(s, p1) {
            Some((keys, p2)) => match spec_buf_list(s, p2) {
                Some((data, p3)) => Some((EventRecV { from_address, keys, data }, p3)),
                None => None,
            },
            None => None,
        },
        None => None,
    }
}

/// `n` consecutive events.
pub open spec fn spec_events(s: Seq<u8>, pos: int, n: nat) -> Option<(Seq<EventRecV>, int)>
    decreases n,
{
    if n == 0 {
        Some((Seq::empty(), pos))
    } else {
        match spec_event(s, pos) {
            Some((e, p)) => match spec_events(s, p, (n - 1) as nat) {
                Some((rest, q)) => Some((seq![e] + rest, q)),
                None => None,
            },
            None => None,
        }
    }
}

/// The event list: a count, then that many events.
pub open spec fn spec_event_list(s: Seq<u8>, pos: int) -> Option<(Seq<EventRecV>, int)> {
    match spec_varu64(s, pos) {
        Some((n, p)) => if n <= usize::MAX as u64 {
            spec_events(s, p, n as nat)
        } else {
            None
        },
        None => None,
    }
}

/// The execution-resource block: ten step and builtin counters, then two
/// three-part gas vectors. All of it is validated and dropped.
pub open spec fn spec_skip_resources(s: Seq<u8>, pos: int) -> Option<int> {
    match spec_skip_u64s(s, pos, 10) {
        Some(p) => match spec_skip_u128s(s, p, 3) {
            Some(q) => spec_skip_u128s(s, q, 3),
            None => None,
        },
        None => None,
    }
}

/// `n` consecutive variable-width 64-bit integers.
pub open spec fn spec_skip_u64s(s: Seq<u8>, pos: int, n: nat) -> Option<int>
    decreases n,
{
    if n == 0 {
        Some(pos)
    } else {
        match spec_varu64(s, pos) {
            Some((_, p)) => spec_skip_u64s(s, p, (n - 1) as nat),
            None => None,
        }
    }
}

/// `n` consecutive variable-width 128-bit integers.
pub open spec fn spec_skip_u128s(s: Seq<u8>, pos: int, n: nat) -> Option<int>
    decreases n,
{
    if n == 0 {
        Some(pos)
    } else {
        match spec_varu128(s, pos) {
            Some((_, p)) => spec_skip_u128s(s, p, (n - 1) as nat),
            None => None,
        }
    }
}

/// The execution result: success, or a revert carrying a free-text reason.
pub open spec fn spec_exec_result(s: Seq<u8>, pos: int) -> Option<(ExecStatusV, int)> {
    match spec_enum_tag(s, pos, 2) {
        Some((t, p)) => if t == 0 {
            Some((ExecStatusV::Succeeded, p))
        } else {
            match spec_string(s, p) {
                Some((reason, q)) => Some((ExecStatusV::Reverted(reason), q)),
                None => None,
            }
        },
        None => None,
    }
}

/// The fields every receipt kind shares, in their stored order.
pub open spec fn spec_receipt_common(s: Seq<u8>, pos: int) -> Option<(ReceiptBodyV, int)> {
    match spec_bytebuf(s, pos) {
        Some((tx_hash, p1)) => match spec_fee(s, p1) {
            Some(((fee_amount, fee_unit), p2)) => match spec_message_list(s, p2) {
                Some((messages, p3)) => match spec_event_list(s, p3) {
                    Some((events, p4)) => match spec_skip_resources(s, p4) {
                        Some(p5) => match spec_exec_result(s, p5) {
                            Some((result, p6)) => Some(
                                (
                                    ReceiptBodyV {
                                        tx_hash,
                                        fee_amount,
                                        fee_unit,
                                        messages,
                                        events,
                                        result,
                                    },
                                    p6,
                                ),
                            ),
                            None => None,
                        },
                        None => None,
                    },
                    None => None,
                },
                None => None,
            },
            None => None,
        },
        None => None,
    }
}

/// A receipt: a kind tag, then the shared fields; the L1-handler kind is
/// preceded by a 32-byte message hash, and the two deploy kinds are followed
/// by the deployed contract address.
pub open spec fn spec_receipt(s: Seq<u8>, pos: int) -> Option<(ReceiptBodyV, int)> {
    match spec_enum_tag(s, pos, 5) {
        Some((t, p)) => {
            let startopt = if t == 1 {
                if p + 32 <= s.len() {
                    Some(p + 32)
                } else {
                    None
                }
            } else {
                Some(p)
            };
            match startopt {
                Some(start) => match spec_receipt_common(s, start) {
                    Some((body, q)) => if t == 3 || t == 4 {
                        match spec_bytebuf(s, q) {
                            Some((_contract, q2)) => Some((body, q2)),
                            None => None,
                        }
                    } else {
                        Some((body, q))
                    },
                    None => None,
                },
                None => None,
            }
        },
        None => None,
    }
}

/// A whole transaction-with-receipt record: the body, then the receipt;
/// nothing may follow.
pub open spec fn spec_tx_record(s: Seq<u8>) -> Option<TransactionRecordV> {
    match spec_tx_body(s, 0) {
        Some((body, p)) => match spec_receipt(s, p) {
            Some((receipt, q)) => if q == s.len() {
                Some(TransactionRecordV { body, receipt })
            } else {
                None
            },
            None => None,
        },
        None => None,
    }
}

// ---- the executable decoders ----

fn skip_resource_bounds(s: &Vec<u8>, pos: usize) -> (r: Option<usize>)
    ensures
        match r {
            Some(p) => spec_skip_resource_bounds(s@, pos as int) == Some(p as int) && pos < p
                <= s@.len(),
            None => spec_skip_resource_bounds(s@, pos as int) is None,
        },
{
    match read_varu64(s, pos) {
        Some((_, p)) => match read_varu128(s, p) {
            Some((_, q)) => Some(q),
            None => None,
        },
        None => None,
    }
}

fn skip_rbm(s: &Vec<u8>, pos: usize) -> (r: Option<usize>)
    ensures
        match r {
            Some(p) => spec_skip_rbm(s@, pos as int) == Some(p as int) && pos < p <= s@.len(),
            None => spec_skip_rbm(s@, pos as int) is None,
        },
{
    match skip_resource_bounds(s, pos) {
        Some(p1) => match skip_resource_bounds(s, p1) {
            Some(p2) => match read_opt_tag(s, p2) {
                Some((present, p3)) => if present {
                    skip_resource_bounds(s, p3)
                } else {
                    Some(p3)
                },
                None => None,
            },
            None => None,
        },
        None => None,
    }
}

fn skip_v3_tail(s: &Vec<u8>, pos: usize, with_account_deployment: bool) -> (r: Option<usize>)
    ensures
        match r {
            Some(p) => spec_skip_v3_tail(s@, pos as int, with_account_deployment) == Some(p as int)
                && pos < p <= s@.len(),
            None => spec_skip_v3_tail(s@, pos as int, with_account_deployment) is None,
        },
{
    let p1 = match skip_rbm(s, pos) {
        Some(p) => p,
        None => { return None },
    };
    let p2 = match read_varu64(s, p1) {
        Some((_, p)) => p,
        None => { return None },
    };
    let p3 = match read_buf_list(s, p2) {
        Some((_, p)) => p,
        None => { return None },
    };
    let p4 = if with_account_deployment {
        match read_buf_list(s, p3) {
            Some((_, p)) => p,
            None => { return None },
        }
    } else {
        p3
    };
    let p5 = match read_varu32(s, p4) {
        Some((_, p)) => p,
        None => { return None },
    };
    match read_varu32(s, p5) {
        Some((_, p)) => Some(p),
        None => None,
    }
}

fn skip_u64s(s: &Vec<u8>, pos: usize, n: usize) -> (r: Option<usize>)
    ensures
        match r {
            Some(p) => spec_skip_u64s(s@, pos as int, n as nat) == Some(p as int) && pos <= p && (
            n > 0 ==> p <= s@.len()),
            None => spec_skip_u64s(s@, pos as int, n as nat) is None,
        },
{
    let mut cur: usize = pos;
    let mut i: usize = 0;
    while i < n
        invariant
            i <= n,
            pos <= cur <= s@.len() || (i == 0 && cur == pos),
            spec_skip_u64s(s@, pos as int, n as nat) == spec_skip_u64s(
                s@,
                cur as int,
                (n - i) as nat,
            ),
        decreases n - i,
    {
        match read_varu64(s, cur) {
            Some((_, p)) => { cur = p },
            None => {
                proof {
                    assert(spec_skip_u64s(s@, cur as int, (n - i) as nat) is None);
                }
                return None;
            },
        }
        i += 1;
    }
    Some(cur)
}

fn skip_u128s(s: &Vec<u8>, pos: usize, n: usize) -> (r: Option<usize>)
    ensures
        match r {
            Some(p) => spec_skip_u128s(s@, pos as int, n as nat) == Some(p as int) && pos <= p && (
            n > 0 ==> p <= s@.len()),
            None => spec_skip_u128s(s@, pos as int, n as nat) is None,
        },
{
    let mut cur: usize = pos;
    let mut i: usize = 0;
    while i < n
        invariant
            i <= n,
            pos <= cur <= s@.len() || (i == 0 && cur == pos),
            spec_skip_u128s(s@, pos as int, n as nat) == spec_skip_u128s(
                s@,
                cur as int,
                (n - i) as nat,
            ),
        decreases n - i,
    {
        match read_varu128(s, cur) {
            Some((_, p)) => { cur = p },
            None => {
                proof {
                    assert(spec_skip_u128s(s@, cur as int, (n - i) as nat) is None);
                }
                return None;
            },
        }
        i += 1;
    }
    Some(cur)
}

fn skip_resources(s: &Vec<u8>, pos: usize) -> (r: Option<usize>)
    ensures
        match r {
            Some(p) => spec_skip_resources(s@, pos as int) == Some(p as int) && pos <= p
                <= s@.len(),
            None => spec_skip_resources(s@, pos as int) is None,
        },
{
    match skip_u64s(s, pos, 10) {
        Some(p) => match skip_u128s(s, p, 3) {
            Some(q) => skip_u128s(s, q, 3),
            None => None,
        },
        None => None,
    }
}

fn read_fee(s: &Vec<u8>, pos: usize) -> (r: Option<(Vec<u8>, FeeUnit, usize)>)
    ensures
        match r {
            Some((amount, unit, p)) => spec_fee(s@, pos as int) == Some(((amount@, unit), p as int))
                && pos < p <= s@.len(),
            None => spec_fee(s@, pos as int) is None,
        },
{
    match read_bytebuf(s, pos) {
        Some((amount, p)) => match read_enum_tag(s, p, 2) {
            Some((u, q)) => Some((amount, if u == 0 {
                FeeUnit::Wei
            } else {
                FeeUnit::Fri
            }, q)),
            None => None,
        },
        None => None,
    }
}

fn read_message(s: &Vec<u8>, pos: usize) -> (r: Option<(MessageRec, usize)>)
    ensures
        match r {
            Some((m, p)) => spec_message(s@, pos as int) == Some((m@, p as int)) && pos < p
                <= s@.len(),
            None => spec_message(s@, pos as int) is None,
        },
{
    let (from_address, p1) = match read_bytebuf(s, pos) {
        Some(x) => x,
        None => { return None },
    };
    let (to_address, p2) = match read_bytebuf(s, p1) {
        Some(x) => x,
        None => { return None },
    };
    let (payload, p3) = match read_buf_list(s, p2) {
        Some(x) => x,
        None => { return None },
    };
    Some((MessageRec { from_address, to_address, payload }, p3))
}

fn read_message_list(s: &Vec<u8>, pos: usize) -> (r: Option<(Vec<MessageRec>, usize)>)
    ensures
        match r {
            Some((v, p)) => spec_message_list(s@, pos as int) == Some((v.deep_view(), p as int))
                && pos < p <= s@.len(),
            None => spec_message_list(s@, pos as int) is None,
        },
{
    match read_varu64(s, pos) {
        Some((n, p0)) => {
            let mut acc: Vec<MessageRec> = Vec::new();
            let mut cur: usize = p0;
            let mut i: u64 = 0;
            proof {
                assert(acc.deep_view() =~= Seq::<MessageRecV>::empty());
                assert(Seq::<MessageRecV>::empty() + Seq::<MessageRecV>::empty() =~= Seq::<
                    MessageRecV,
                >::empty());
            }
            while i < n
                invariant
                    i <= n,
                    pos < cur <= s@.len(),
                    cur as int >= p0 as int + i as int,
                    spec_varu64(s@, pos as int) == Some((n, p0 as int)),
                    acc.deep_view().len() == i,
                    spec_messages(s@, p0 as int, n as nat) == (match spec_messages(
                        s@,
                        cur as int,
                        (n - i) as nat,
                    ) {
                        Some((rest, q)) => Some((acc.deep_view() + rest, q)),
                        None => None::<(Seq<MessageRecV>, int)>,
                    }),
                decreases n - i,
            {
                match read_message(s, cur) {
                    Some((m, q)) => {
                        let ghost old_acc = acc.deep_view();
                        let ghost mv = m@;
                        acc.push(m);
                        proof {
                            assert(acc.deep_view() =~= old_acc.push(mv));
                            assert(spec_messages(s@, cur as int, (n - i) as nat) == (
                            match spec_messages(s@, q as int, (n - i - 1) as nat) {
                                Some((rest, end)) => Some((seq![mv] + rest, end)),
                                None => None::<(Seq<MessageRecV>, int)>,
                            }));
                            match spec_messages(s@, q as int, (n - i - 1) as nat) {
                                Some((rest, end)) => {
                                    assert(old_acc + (seq![mv] + rest) =~= old_acc.push(mv)
                                        + rest);
                                },
                                None => {},
                            }
                        }
                        cur = q;
                    },
                    None => {
                        proof {
                            assert(spec_messages(s@, cur as int, (n - i) as nat) is None);
                            assert(spec_messages(s@, p0 as int, n as nat) is None);
                            assert(spec_message_list(s@, pos as int) is None);
                        }
                        return None;
                    },
                }
                i += 1;
            }
            proof {
                assert(n <= usize::MAX as u64);
                assert(spec_messages(s@, cur as int, 0nat) == Some(
                    (Seq::<MessageRecV>::empty(), cur as int),
                ));
                assert(acc.deep_view() + Seq::<MessageRecV>::empty() =~= acc.deep_view());
                assert(spec_messages(s@, p0 as int, n as nat) == Some(
                    (acc.deep_view(), cur as int),
                ));
            }
            Some((acc, cur))
        },
        None => None,
    }
}

fn read_event(s: &Vec<u8>, pos: usize) -> (r: Option<(EventRec, usize)>)
    ensures
        match r {
            Some((e, p)) => spec_event(s@, pos as int) == Some((e@, p as int)) && pos < p
                <= s@.len(),
            None => spec_event(s@, pos as int) is None,
        },
{
    let (from_address, p1) = match read_bytebuf(s, pos) {
        Some(x) => x,
        None => { return None },
    };
    let (keys, p2) = match read_buf_list(s, p1) {
        Some(x) => x,
        None => { return None },
    };
    let (data, p3) = match read_buf_list(s, p2) {
        Some(x) => x,
        None => { return None },
    };
    Some((EventRec { from_address, keys, data }, p3))
}

fn read_event_list(s: &Vec<u8>, pos: usize) -> (r: Option<(Vec<EventRec>, usize)>)
    ensures
        match r {
            Some((v, p)) => spec_event_list(s@, pos as int) == Some((v.deep_view(), p as int))
                && pos < p <= s@.len(),
            None => spec_event_list(s@, pos as int) is None,
        },
{
    match read_varu64(s, pos) {
        Some((n, p0)) => {
            let mut acc: Vec<EventRec> = Vec::new();
            let mut cur: usize = p0;
            let mut i: u64 = 0;
            proof {
                assert(acc.deep_view() =~= Seq::<EventRecV>::empty());
                assert(Seq::<EventRecV>::empty() + Seq::<EventRecV>::empty() =~= Seq::<
                    EventRecV,
                >::empty());
            }
            while i < n
                invariant
                    i <= n,
                    pos < cur <= s@.len(),
                    cur as int >= p0 as int + i as int,
                    spec_varu64(s@, pos as int) == Some((n, p0 as int)),
                    acc.deep_view().len() == i,
                    spec_events(s@, p0 as int, n as nat) == (match spec_events(
                        s@,
                        cur as int,
                        (n - i) as nat,
                    ) {
                        Some((rest, q)) => Some((acc.deep_view() + rest, q)),
                        None => None::<(Seq<EventRecV>, int)>,
                    }),
                decreases n - i,
            {
                match read_event(s, cur) {
                    Some((e, q)) => {
                        let ghost old_acc = acc.deep_view();
                        let ghost ev = e@;
                        acc.push(e);
                        proof {
                            assert(acc.deep_view() =~= old_acc.push(ev));
                            assert(spec_events(s@, cur as int, (n - i) as nat) == (
                            match spec_events(s@, q as int, (n - i - 1) as nat) {
                                Some((rest, end)) => Some((seq![ev] + rest, end)),
                                None => None::<(Seq<EventRecV>, int)>,
                            }));
                            match spec_events(s@, q as int, (n - i - 1) as nat) {
                                Some((rest, end)) => {
                                    assert(old_acc + (seq![ev] + rest) =~= old_acc.push(ev)
                                        + rest);
                                },
                                None => {},
                            }
                        }
                        cur = q;
                    },
                    None => {
                        proof {
                            assert(spec_events(s@, cur as int, (n - i) as nat) is None);
                            assert(spec_events(s@, p0 as int, n as nat) is None);
                            assert(spec_event_list(s@, pos as int) is None);
                        }
                        return None;
                    },
                }
                i += 1;
            }
            proof {
                assert(n <= usize::MAX as u64);
                assert(spec_events(s@, cur as int, 0nat) == Some(
                    (Seq::<EventRecV>::empty(), cur as int),
                ));
                assert(acc.deep_view() + Seq::<EventRecV>::empty() =~= acc.deep_view());
                assert(spec_events(s@, p0 as int, n as nat) == Some((acc.deep_view(), cur as int)));
            }
            Some((acc, cur))
        },
        None => None,
    }
}

fn read_exec_result(s: &Vec<u8>, pos: usize) -> (r: Option<(ExecutionStatus, usize)>)
    ensures
        match r {
            Some((v, p)) => spec_exec_result(s@, pos as int) == Some((v@, p as int)) && pos < p
                <= s@.len(),
            None => spec_exec_result(s@, pos as int) is None,
        },
{
    match read_enum_tag(s, pos, 2) {
        Some((t, p)) => {
            if t == 0 {
                Some((ExecutionStatus::Succeeded, p))
            } else {
                match read_string(s, p) {
                    Some((reason, q)) => Some((ExecutionStatus::Reverted(reason), q)),
                    None => None,
                }
            }
        },
        None => None,
    }
}

fn read_receipt_common(s: &Vec<u8>, pos: usize) -> (r: Option<(ReceiptBody, usize)>)
    ensures
        match r {
            Some((v, p)) => spec_receipt_common(s@, pos as int) == Some((v@, p as int)) && pos < p
                <= s@.len(),
            None => spec_receipt_common(s@, pos as int) is None,
        },
{
    let (tx_hash, p1) = match read_bytebuf(s, pos) {
        Some(x) => x,
        None => { return None },
    };
    let (fee_amount, fee_unit, p2) = match read_fee(s, p1) {
        Some(x) => x,
        None => { return None },
    };
    let (messages, p3) = match read_message_list(s, p2) {
        Some(x) => x,
        None => { return None },
    };
    let (events, p4) = match read_event_list(s, p3) {
        Some(x) => x,
        None => { return None },
    };
    let p5 = match skip_resources(s, p4) {
        Some(p) => p,
        None => { return None },
    };
    let (result, p6) = match read_exec_result(s, p5) {
        Some(x) => x,
        None => { return None },
    };
    Some((ReceiptBody { tx_hash, fee_amount, fee_unit, messages, events, result }, p6))
}

fn read_receipt(s: &Vec<u8>, pos: usize) -> (r: Option<(ReceiptBody, usize)>)
    ensures
        match r {
            Some((v, p)) => spec_receipt(s@, pos as int) == Some((v@, p as int)) && pos < p
                <= s@.len(),
            None => spec_receipt(s@, pos as int) is None,
        },
{
    let (t, p) = match read_enum_tag(s, pos, 5) {
        Some(x) => x,
        None => { return None },
    };
    let start = if t == 1 {
        if s.len() - p < 32 {
            return None;
        }
        p + 32
    } else {
        p
    };
    let (body, q) = match read_receipt_common(s, start) {
        Some(x) => x,
        None => { return None },
    };
    if t == 3 || t == 4 {
        match read_bytebuf(s, q) {
            Some((_, q2)) => Some((body, q2)),
            None => None,
        }
    } else {
        Some((body, q))
    }
}

fn decode_invoke(s: &Vec<u8>, pos: usize) -> (r: Option<(TxBody, usize)>)
    ensures
        match r {
            Some((v, p)) => spec_invoke(s@, pos as int) == Some((v@, p as int)) && pos < p
                <= s@.len(),
            None => spec_invoke(s@, pos as int) is None,
        },
{
    let (v, p) = match read_enum_tag(s, pos, 3) {
        Some(x) => x,
        None => { return None },
    };
    if v == 0 {
        let p1 = match read_bytebuf(s, p) {
            Some((_, q)) => q,
            None => { return None },
        };
        let (signature, p2) = match read_buf_list(s, p1) {
            Some(x) => x,
            None => { return None },
        };
        let (contract_address, p3) = match read_bytebuf(s, p2) {
            Some(x) => x,
            None => { return None },
        };
        let p4 = match read_bytebuf(s, p3) {
            Some((_, q)) => q,
            None => { return None },
        };
        let (calldata, p5) = match read_buf_list(s, p4) {
            Some(x) => x,
            None => { return None },
        };
        Some((TxBody::InvokeV0 { contract_address, signature, calldata }, p5))
    } else if v == 1 {
        let (sender_address, p1) = match read_bytebuf(s, p) {
            Some(x) => x,
            None => { return None },
        };
        let (calldata, p2) = match read_buf_list(s, p1) {
            Some(x) => x,
            None => { return None },
        };
        let p3 = match read_bytebuf(s, p2) {
            Some((_, q)) => q,
            None => { return None },
        };
        let (signature, p4) = match read_buf_list(s, p3) {
            Some(x) => x,
            None => { return None },
        };
        let (nonce, p5) = match read_bytebuf(s, p4) {
            Some(x) => x,
            None => { return None },
        };
        Some((TxBody::InvokeV1 { sender_address, calldata, signature, nonce }, p5))
    } else {
        let (sender_address, p1) = match read_bytebuf(s, p) {
            Some(x) => x,
            None => { return None },
        };
        let (calldata, p2) = match read_buf_list(s, p1) {
            Some(x) => x,
            None => { return None },
        };
        let (signature, p3) = match read_buf_list(s, p2) {
            Some(x) => x,
            None => { return None },
        };
        let (nonce, p4) = match read_bytebuf(s, p3) {
            Some(x) => x,
            None => { return None },
        };
        let p5 = match skip_v3_tail(s, p4, true) {
            Some(q) => q,
            None => { return None },
        };
        Some((TxBody::InvokeV3 { sender_address, calldata, signature, nonce }, p5))
    }
}

fn decode_l1_handler(s: &Vec<u8>, pos: usize) -> (r: Option<(TxBody, usize)>)
    ensures
        match r {
            Some((v, p)) => spec_l1_handler(s@, pos as int) == Some((v@, p as int)) && pos < p
                <= s@.len(),
            None => spec_l1_handler(s@, pos as int) is None,
        },
{
    let (version, p1) = match read_bytebuf(s, pos) {
        Some(x) => x,
        None => { return None },
    };
    let (nonce, p2) = match read_varu64(s, p1) {
        Some(x) => x,
        None => { return None },
    };
    let (contract_address, p3) = match read_bytebuf(s, p2) {
        Some(x) => x,
        None => { return None },
    };
    let p4 = match read_bytebuf(s, p3) {
        Some((_, q)) => q,
        None => { return None },
    };
    let (calldata, p5) = match read_buf_list(s, p4) {
        Some(x) => x,
        None => { return None },
    };
    Some((TxBody::L1Handler { version, nonce, contract_address, calldata }, p5))
}

fn decode_declare(s: &Vec<u8>, pos: usize) -> (r: Option<(TxBody, usize)>)
    ensures
        match r {
            Some((v, p)) => spec_declare(s@, pos as int) == Some((v@, p as int)) && pos < p
                <= s@.len(),
            None => spec_declare(s@, pos as int) is None,
        },
{
    let (v, p) = match read_enum_tag(s, pos, 4) {
        Some(x) => x,
        None => { return None },
    };
    if v == 0 {
        let (sender_address, p1) = match read_bytebuf(s, p) {
            Some(x) => x,
            None => { return None },
        };
        let p2 = match read_bytebuf(s, p1) {
            Some((_, q)) => q,
            None => { return None },
        };
        let (signature, p3) = match read_buf_list(s, p2) {
            Some(x) => x,
            None => { return None },
        };
        let p4 = match read_bytebuf(s, p3) {
            Some((_, q)) => q,
            None => { return None },
        };
        Some((TxBody::DeclareV0 { sender_address, signature }, p4))
    } else if v == 1 {
        let (sender_address, p1) = match read_bytebuf(s, p) {
            Some(x) => x,
            None => { return None },
        };
        let p2 = match read_bytebuf(s, p1) {
            Some((_, q)) => q,
            None => { return None },
        };
        let (signature, p3) = match read_buf_list(s, p2) {
            Some(x) => x,
            None => { return None },
        };
        let (nonce, p4) = match read_bytebuf(s, p3) {
            Some(x) => x,
            None => { return None },
        };
        let p5 = match read_bytebuf(s, p4) {
            Some((_, q)) => q,
            None => { return None },
        };
        Some((TxBody::DeclareV1 { sender_address, signature, nonce }, p5))
    } else if v == 2 {
        let (sender_address, p1) = match read_bytebuf(s, p) {
            Some(x) => x,
            None => { return None },
        };
        let p2 = match read_bytebuf(s, p1) {
            Some((_, q)) => q,
            None => { return None },
        };
        let p3 = match read_bytebuf(s, p2) {
            Some((_, q)) => q,
            None => { return None },
        };
        let (signature, p4) = match read_buf_list(s, p3) {
            Some(x) => x,
            None => { return None },
        };
        let (nonce, p5) = match read_bytebuf(s, p4) {
            Some(x) => x,
            None => { return None },
        };
        let p6 = match read_bytebuf(s, p5) {
            Some((_, q)) => q,
            None => { return None },
        };
        Some((TxBody::DeclareV2 { sender_address, signature, nonce }, p6))
    } else {
        let (sender_address, p1) = match read_bytebuf(s, p) {
            Some(x) => x,
            None => { return None },
        };
        let p2 = match read_bytebuf(s, p1) {
            Some((_, q)) => q,
            None => { return None },
        };
        let (signature, p3) = match read_buf_list(s, p2) {
            Some(x) => x,
            None => { return None },
        };
        let (nonce, p4) = match read_bytebuf(s, p3) {
            Some(x) => x,
            None => { return None },
        };
        let p5 = match read_bytebuf(s, p4) {
            Some((_, q)) => q,
            None => { return None },
        };
        let p6 = match skip_v3_tail(s, p5, true) {
            Some(q) => q,
            None => { return None },
        };
        Some((TxBody::DeclareV3 { sender_address, signature, nonce }, p6))
    }
}

fn decode_deploy(s: &Vec<u8>, pos: usize) -> (r: Option<(TxBody, usize)>)
    ensures
        match r {
            Some((v, p)) => spec_deploy(s@, pos as int) == Some((v@, p as int)) && pos < p
                <= s@.len(),
            None => spec_deploy(s@, pos as int) is None,
        },
{
    let (version, p1) = match read_bytebuf(s, pos) {
        Some(x) => x,
        None => { return None },
    };
    let p2 = match read_bytebuf(s, p1) {
        Some((_, q)) => q,
        None => { return None },
    };
    let p3 = match read_bytebuf(s, p2) {
        Some((_, q)) => q,
        None => { return None },
    };
    let (calldata, p4) = match read_buf_list(s, p3) {
        Some(x) => x,
        None => { return None },
    };
    Some((TxBody::Deploy { version, calldata }, p4))
}

fn decode_deploy_account(s: &Vec<u8>, pos: usize) -> (r: Option<(TxBody, usize)>)
    ensures
        match r {
            Some((v, p)) => spec_deploy_account(s@, pos as int) == Some((v@, p as int)) && pos < p
                <= s@.len(),
            None => spec_deploy_account(s@, pos as int) is None,
        },
{
    let (v, p) = match read_enum_tag(s, pos, 2) {
        Some(x) => x,
        None => { return None },
    };
    if v == 0 {
        let p1 = match read_bytebuf(s, p) {
            Some((_, q)) => q,
            None => { return None },
        };
        let (signature, p2) = match read_buf_list(s, p1) {
            Some(x) => x,
            None => { return None },
        };
        let (nonce, p3) = match read_bytebuf(s, p2) {
            Some(x) => x,
            None => { return None },
        };
        let p4 = match read_bytebuf(s, p3) {
            Some((_, q)) => q,
            None => { return None },
        };
        let (calldata, p5) = match read_buf_list(s, p4) {
            Some(x) => x,
            None => { return None },
        };
        let p6 = match read_bytebuf(s, p5) {
            Some((_, q)) => q,
            None => { return None },
        };
        Some((TxBody::DeployAccountV1 { calldata, signature, nonce }, p6))
    } else {
        let (signature, p1) = match read_buf_list(s, p) {
            Some(x) => x,
            None => { return None },
        };
        let (nonce, p2) = match read_bytebuf(s, p1) {
            Some(x) => x,
            None => { return None },
        };
        let p3 = match read_bytebuf(s, p2) {
            Some((_, q)) => q,
            None => { return None },
        };
        let (calldata, p4) = match read_buf_list(s, p3) {
            Some(x) => x,
            None => { return None },
        };
        let p5 = match read_bytebuf(s, p4) {
            Some((_, q)) => q,
            None => { return None },
        };
        let p6 = match skip_v3_tail(s, p5, false) {
            Some(q) => q,
            None => { return None },
        };
        Some((TxBody::DeployAccountV3 { calldata, signature, nonce }, p6))
    }
}

/// Decode a whole transaction-with-receipt record, or report that the bytes
/// do not hold one.
pub fn decode_transaction_record(bytes: &Vec<u8>) -> (r: Option<TransactionRecord>)
    ensures
        match r {
            Some(rec) => spec_tx_record(bytes@) == Some(rec@),
            None => spec_tx_record(bytes@) is None,
        },
{
    let s = bytes;
    let (t, p) = match read_enum_tag(s, 0, 5) {
        Some(x) => x,
        None => { return None },
    };
    let (body, p1) = match (if t == 0 {
        decode_invoke(s, p)
    } else if t == 1 {
        decode_l1_handler(s, p)
    } else if t == 2 {
        decode_declare(s, p)
    } else if t == 3 {
        decode_deploy(s, p)
    } else {
        decode_deploy_account(s, p)
    }) {
        Some(x) => x,
        None => { return None },
    };
    let (receipt, p2) = match read_receipt(s, p1) {
        Some(x) => x,
        None => { return None },
    };
    if p2 != s.len() {
        return None;
    }
    Some(TransactionRecord { body, receipt })
}

// ---- the views built from decoded records ----

/// An event rendered for display.
#[derive(Debug, Clone)]
pub struct EventInfo {
    pub from_address: String,
    pub keys: Vec<String>,
    pub data: Vec<String>,
}

/// The same event in ghost form.
pub struct EventInfoV {
    pub from_address: Seq<char>,
    pub keys: Seq<Seq<char>>,
    pub data: Seq<Seq<char>>,
}

impl View for EventInfo {
    type V = EventInfoV;

    open spec fn view(&self) -> EventInfoV {
        EventInfoV {
            from_address: self.from_address@,
            keys: self.keys.deep_view(),
            data: self.data.deep_view(),
        }
    }
}

impl DeepView for EventInfo {
    type V = EventInfoV;

    open spec fn deep_view(&self) -> EventInfoV {
        self@
    }
}

/// A message to L1 rendered for display.
#[derive(Debug, Clone)]
pub struct MessageInfo {
    pub from_address: String,
    pub to_address: String,
    pub payload: Vec<String>,
}

/// The same message in ghost form.
pub struct MessageInfoV {
    pub from_address: Seq<char>,
    pub to_address: Seq<char>,
    pub payload: Seq<Seq<char>>,
}

impl View for MessageInfo {
    type V = MessageInfoV;

    open spec fn view(&self) -> MessageInfoV {
        MessageInfoV {
            from_address: self.from_address@,
            to_address: self.to_address@,
            payload: self.payload.deep_view(),
        }
    }
}

impl DeepView for MessageInfo {
    type V = MessageInfoV;

    open spec fn deep_view(&self) -> MessageInfoV {
        self@
    }
}

/// A transaction row for list views.
#[derive(Debug, Clone)]
pub struct TransactionSummary {
    pub tx_hash: String,
    pub tx_type: TransactionType,
    pub status: ExecutionStatus,
    pub block_number: u64,
    pub tx_index: usize,
}

/// The same row in ghost form.
pub struct TransactionSummaryV {
    pub tx_hash: Seq<char>,
    pub tx_type: TransactionType,
    pub status: ExecStatusV,
    pub block_number: u64,
    pub tx_index: usize,
}

impl View for TransactionSummary {
    type V = TransactionSummaryV;

    open spec fn view(&self) -> TransactionSummaryV {
        TransactionSummaryV {
            tx_hash: self.tx_hash@,
            tx_type: self.tx_type,
            status: self.status@,
            block_number: self.block_number,
            tx_index: self.tx_index,
        }
    }
}

impl DeepView for TransactionSummary {
    type V = TransactionSummaryV;

    open spec fn deep_view(&self) -> TransactionSummaryV {
        self@
    }
}

/// Full transaction details.
#[derive(Debug, Clone)]
pub struct TransactionDetail {
    pub tx_hash: String,
    pub tx_type: TransactionType,
    pub status: ExecutionStatus,
    pub block_number: u64,
    pub tx_index: usize,
    pub actual_fee: String,
    pub fee_unit: String,
    pub events: Vec<EventInfo>,
    pub messages_sent: Vec<MessageInfo>,
    pub sender_address: Option<String>,
    pub calldata: Vec<String>,
    pub signature: Vec<String>,
    pub nonce: Option<String>,
    pub version: Option<String>,
}

/// The same details in ghost form.
#[verifier::ext_equal]
pub struct TransactionDetailV {
    pub tx_hash: Seq<char>,
    pub tx_type: TransactionType,
    pub status: ExecStatusV,
    pub block_number: u64,
    pub tx_index: usize,
    pub actual_fee: Seq<char>,
    pub fee_unit: Seq<char>,
    pub events: Seq<EventInfoV>,
    pub messages_sent: Seq<MessageInfoV>,
    pub sender_address: Option<Seq<char>>,
    pub calldata: Seq<Seq<char>>,
    pub signature: Seq<Seq<char>>,
    pub nonce: Option<Seq<char>>,
    pub version: Option<Seq<char>>,
}

impl View for TransactionDetail {
    type V = TransactionDetailV;

    open spec fn view(&self) -> TransactionDetailV {
        TransactionDetailV {
            tx_hash: self.tx_hash@,
            tx_type: self.tx_type,
            status: self.status@,
            block_number: self.block_number,
            tx_index: self.tx_index,
            actual_fee: self.actual_fee@,
            fee_unit: self.fee_unit@,
            events: self.events.deep_view(),
            messages_sent: self.messages_sent.deep_view(),
            sender_address: match &self.sender_address {
                Some(s) => Some(s@),
                None => None,
            },
            calldata: self.calldata.deep_view(),
            signature: self.signature.deep_view(),
            nonce: match &self.nonce {
                Some(s) => Some(s@),
                None => None,
            },
            version: match &self.version {
                Some(s) => Some(s@),
                None => None,
            },
        }
    }
}

/// The kind of a decoded transaction body.
pub open spec fn spec_tx_type(t: TxBodyV) -> TransactionType {
    match t {
        TxBodyV::InvokeV0 { .. } => TransactionType::Invoke,
        TxBodyV::InvokeV1 { .. } => TransactionType::Invoke,
        TxBodyV::InvokeV3 { .. } => TransactionType::Invoke,
        TxBodyV::L1Handler { .. } => TransactionType::L1Handler,
        TxBodyV::DeclareV0 { .. } => TransactionType::Declare,
        TxBodyV::DeclareV1 { .. } => TransactionType::Declare,
        TxBodyV::DeclareV2 { .. } => TransactionType::Declare,
        TxBodyV::DeclareV3 { .. } => TransactionType::Declare,
        TxBodyV::Deploy { .. } => TransactionType::Deploy,
        TxBodyV::DeployAccountV1 { .. } => TransactionType::DeployAccount,
        TxBodyV::DeployAccountV3 { .. } => TransactionType::DeployAccount,
    }
}

/// Where the displayed sender address comes from: the sender for invoke and
/// declare, the called contract for invoke-v0 and L1-handler, nothing for
/// the two deploy kinds.
pub open spec fn spec_sender(t: TxBodyV) -> Option<Seq<char>> {
    match t {
        TxBodyV::InvokeV0 { contract_address, .. } => Some(felt_hex_of(contract_address)),
        TxBodyV::InvokeV1 { sender_address, .. } => Some(felt_hex_of(sender_address)),
        TxBodyV::InvokeV3 { sender_address, .. } => Some(felt_hex_of(sender_address)),
        TxBodyV::L1Handler { contract_address, .. } => Some(felt_hex_of(contract_address)),
        TxBodyV::DeclareV0 { sender_address, .. } => Some(felt_hex_of(sender_address)),
        TxBodyV::DeclareV1 { sender_address, .. } => Some(felt_hex_of(sender_address)),
        TxBodyV::DeclareV2 { sender_address, .. } => Some(felt_hex_of(sender_address)),
        TxBodyV::DeclareV3 { sender_address, .. } => Some(felt_hex_of(sender_address)),
        TxBodyV::Deploy { .. } => None,
        TxBodyV::DeployAccountV1 { .. } => None,
        TxBodyV::DeployAccountV3 { .. } => None,
    }
}

/// The displayed calldata: call or constructor arguments; declares have
/// none.
pub open spec fn spec_calldata(t: TxBodyV) -> Seq<Seq<char>> {
    match t {
        TxBodyV::InvokeV0 { calldata, .. } => calldata.map_values(|b: Seq<u8>| felt_hex_of(b)),
        TxBodyV::InvokeV1 { calldata, .. } => calldata.map_values(|b: Seq<u8>| felt_hex_of(b)),
        TxBodyV::InvokeV3 { calldata, .. } => calldata.map_values(|b: Seq<u8>| felt_hex_of(b)),
        TxBodyV::L1Handler { calldata, .. } => calldata.map_values(|b: Seq<u8>| felt_hex_of(b)),
        TxBodyV::DeclareV0 { .. } => Seq::empty(),
        TxBodyV::DeclareV1 { .. } => Seq::empty(),
        TxBodyV::DeclareV2 { .. } => Seq::empty(),
        TxBodyV::DeclareV3 { .. } => Seq::empty(),
        TxBodyV::Deploy { calldata, .. } => calldata.map_values(|b: Seq<u8>| felt_hex_of(b)),
        TxBodyV::DeployAccountV1 { calldata, .. } => calldata.map_values(
            |b: Seq<u8>| felt_hex_of(b),
        ),
        TxBodyV::DeployAccountV3 { calldata, .. } => calldata.map_values(
            |b: Seq<u8>| felt_hex_of(b),
        ),
    }
}

/// The displayed signature; L1-handler and deploy transactions carry none.
pub open spec fn spec_signature(t: TxBodyV) -> Seq<Seq<char>> {
    match t {
        TxBodyV::InvokeV0 { signature, .. } => signature.map_values(|b: Seq<u8>| felt_hex_of(b)),
        TxBodyV::InvokeV1 { signature, .. } => signature.map_values(|b: Seq<u8>| felt_hex_of(b)),
        TxBodyV::InvokeV3 { signature, .. } => signature.map_values(|b: Seq<u8>| felt_hex_of(b)),
        TxBodyV::L1Handler { .. } => Seq::empty(),
        TxBodyV::DeclareV0 { signature, .. } => signature.map_values(|b: Seq<u8>| felt_hex_of(b)),
        TxBodyV::DeclareV1 { signature, .. } => signature.map_values(|b: Seq<u8>| felt_hex_of(b)),
        TxBodyV::DeclareV2 { signature, .. } => signature.map_values(|b: Seq<u8>| felt_hex_of(b)),
        TxBodyV::DeclareV3 { signature, .. } => signature.map_values(|b: Seq<u8>| felt_hex_of(b)),
        TxBodyV::Deploy { .. } => Seq::empty(),
        TxBodyV::DeployAccountV1 { signature, .. } => signature.map_values(
            |b: Seq<u8>| felt_hex_of(b),
        ),
        TxBodyV::DeployAccountV3 { signature, .. } => signature.map_values(
            |b: Seq<u8>| felt_hex_of(b),
        ),
    }
}

/// The displayed nonce: hex for felt nonces, decimal for the L1-handler's
/// integer nonce, absent where the version carries none.
pub open spec fn spec_nonce(t: TxBodyV) -> Option<Seq<char>> {
    match t {
        TxBodyV::InvokeV0 { .. } => None,
        TxBodyV::InvokeV1 { nonce, .. } => Some(felt_hex_of(nonce)),
        TxBodyV::InvokeV3 { nonce, .. } => Some(felt_hex_of(nonce)),
        TxBodyV::L1Handler { nonce, .. } => Some(spec_decimal(nonce)),
        TxBodyV::DeclareV0 { .. } => None,
        TxBodyV::DeclareV1 { nonce, .. } => Some(felt_hex_of(nonce)),
        TxBodyV::DeclareV2 { nonce, .. } => Some(felt_hex_of(nonce)),
        TxBodyV::DeclareV3 { nonce, .. } => Some(felt_hex_of(nonce)),
        TxBodyV::Deploy { .. } => None,
        TxBodyV::DeployAccountV1 { nonce, .. } => Some(felt_hex_of(nonce)),
        TxBodyV::DeployAccountV3 { nonce, .. } => Some(felt_hex_of(nonce)),
    }
}

/// The displayed version: the version number for tagged versions, the raw
/// version felt for L1-handler and deploy.
pub open spec fn spec_version(t: TxBodyV) -> Option<Seq<char>> {
    match t {
        TxBodyV::InvokeV0 { .. } => Some("0"@),
        TxBodyV::InvokeV1 { .. } => Some("1"@),
        TxBodyV::InvokeV3 { .. } => Some("3"@),
        TxBodyV::L1Handler { version, .. } => Some(felt_hex_of(version)),
        TxBodyV::DeclareV0 { .. } => Some("0"@),
        TxBodyV::DeclareV1 { .. } => Some("1"@),
        TxBodyV::DeclareV2 { .. } => Some("2"@),
        TxBodyV::DeclareV3 { .. } => Some("3"@),
        TxBodyV::Deploy { version, .. } => Some(felt_hex_of(version)),
        TxBodyV::DeployAccountV1 { .. } => Some("1"@),
        TxBodyV::DeployAccountV3 { .. } => Some("3"@),
    }
}

/// An event rendered for display.
pub open spec fn spec_event_info(e: EventRecV) -> EventInfoV {
    EventInfoV {
        from_address: felt_hex_of(e.from_address),
        keys: e.keys.map_values(|b: Seq<u8>| felt_hex_of(b)),
        data: e.data.map_values(|b: Seq<u8>| felt_hex_of(b)),
    }
}

/// A message rendered for display.
pub open spec fn spec_message_info(m: MessageRecV) -> MessageInfoV {
    MessageInfoV {
        from_address: felt_hex_of(m.from_address),
        to_address: felt_hex_of(m.to_address),
        payload: m.payload.map_values(|b: Seq<u8>| felt_hex_of(b)),
    }
}

/// The fee unit's label.
pub open spec fn spec_fee_unit_label(u: FeeUnit) -> Seq<char> {
    match u {
        FeeUnit::Wei => "WEI"@,
        FeeUnit::Fri => "FRI"@,
    }
}

/// The detail view a decoded record displays as: every field's provenance
/// per kind and version.
pub open spec fn spec_detail_of(
    rec: TransactionRecordV,
    block_number: u64,
    tx_index: usize,
) -> TransactionDetailV {
    TransactionDetailV {
        tx_hash: felt_hex_of(rec.receipt.tx_hash),
        tx_type: spec_tx_type(rec.body),
        status: rec.receipt.result,
        block_number,
        tx_index,
        actual_fee: felt_hex_of(rec.receipt.fee_amount),
        fee_unit: spec_fee_unit_label(rec.receipt.fee_unit),
        events: rec.receipt.events.map_values(|e: EventRecV| spec_event_info(e)),
        messages_sent: rec.receipt.messages.map_values(|m: MessageRecV| spec_message_info(m)),
        sender_address: spec_sender(rec.body),
        calldata: spec_calldata(rec.body),
        signature: spec_signature(rec.body),
        nonce: spec_nonce(rec.body),
        version: spec_version(rec.body),
    }
}

/// Render a list of events for display.
fn event_infos(v: Vec<EventRec>) -> (r: Vec<EventInfo>)
    ensures
        r.deep_view() == v.deep_view().map_values(|e: EventRecV| spec_event_info(e)),
{
    let mut out: Vec<EventInfo> = Vec::new();
    let mut i: usize = 0;
    let n = v.len();
    let mut rest = v;
    while i < n
        invariant
            i <= n,
            rest@.len() == n,
            out.deep_view() =~= rest.deep_view().take(i as int).map_values(
                |e: EventRecV| spec_event_info(e),
            ),
        decreases n - i,
    {
        let ghost pre = out.deep_view();
        let e = &rest[i];
        let info = EventInfo {
            from_address: felt_hex(e.from_address.as_slice()),
            keys: felt_hex_list(&e.keys),
            data: felt_hex_list(&e.data),
        };
        proof {
            assert(info@ == spec_event_info(rest.deep_view()[i as int]));
        }
        out.push(info);
        proof {
            assert(out.deep_view() =~= pre.push(spec_event_info(rest.deep_view()[i as int])));
            assert(rest.deep_view().take(i + 1int).map_values(|e: EventRecV| spec_event_info(e))
                =~= pre.push(spec_event_info(rest.deep_view()[i as int])));
        }
        i += 1;
    }
    proof {
        assert(rest.deep_view().take(n as int) =~= rest.deep_view());
    }
    out
}

/// Render a list of messages for display.
fn message_infos(v: Vec<MessageRec>) -> (r: Vec<MessageInfo>)
    ensures
        r.deep_view() == v.deep_view().map_values(|m: MessageRecV| spec_message_info(m)),
{
    let mut out: Vec<MessageInfo> = Vec::new();
    let mut i: usize = 0;
    let n = v.len();
    let rest = v;
    while i < n
        invariant
            i <= n,
            rest@.len() == n,
            out.deep_view() =~= rest.deep_view().take(i as int).map_values(
                |m: MessageRecV| spec_message_info(m),
            ),
        decreases n - i,
    {
        let ghost pre = out.deep_view();
        let m = &rest[i];
        let info = MessageInfo {
            from_address: felt_hex(m.from_address.as_slice()),
            to_address: felt_hex(m.to_address.as_slice()),
            payload: felt_hex_list(&m.payload),
        };
        proof {
            assert(info@ == spec_message_info(rest.deep_view()[i as int]));
        }
        out.push(info);
        proof {
            assert(out.deep_view() =~= pre.push(spec_message_info(rest.deep_view()[i as int])));
            assert(rest.deep_view().take(i + 1int).map_values(
                |m: MessageRecV| spec_message_info(m),
            ) =~= pre.push(spec_message_info(rest.deep_view()[i as int])));
        }
        i += 1;
    }
    proof {
        assert(rest.deep_view().take(n as int) =~= rest.deep_view());
    }
    out
}

/// The kind of a decoded transaction body.
pub fn tx_type_of(body: &TxBody) -> (r: TransactionType)
    ensures
        r == spec_tx_type(body@),
{
    match body {
        TxBody::InvokeV0 { .. } => TransactionType::Invoke,
        TxBody::InvokeV1 { .. } => TransactionType::Invoke,
        TxBody::InvokeV3 { .. } => TransactionType::Invoke,
        TxBody::L1Handler { .. } => TransactionType::L1Handler,
        TxBody::DeclareV0 { .. } => TransactionType::Declare,
        TxBody::DeclareV1 { .. } => TransactionType::Declare,
        TxBody::DeclareV2 { .. } => TransactionType::Declare,
        TxBody::DeclareV3 { .. } => TransactionType::Declare,
        TxBody::Deploy { .. } => TransactionType::Deploy,
        TxBody::DeployAccountV1 { .. } => TransactionType::DeployAccount,
        TxBody::DeployAccountV3 { .. } => TransactionType::DeployAccount,
    }
}

/// Build the detail view of a decoded record, reproducing each field's
/// source per the kind-and-version table of [`spec_detail_of`].
pub fn transaction_detail_of(rec: TransactionRecord, block_number: u64, tx_index: usize) -> (r:
    TransactionDetail)
    ensures
        r@ == spec_detail_of(rec@, block_number, tx_index),
{
    let ghost recv = rec@;
    let TransactionRecord { body, receipt } = rec;
    let ReceiptBody { tx_hash, fee_amount, fee_unit, messages, events, result } = receipt;
    proof {
        reveal_strlit("WEI");
        reveal_strlit("FRI");
        reveal_strlit("0");
        reveal_strlit("1");
        reveal_strlit("2");
        reveal_strlit("3");
    }
    let fee_unit_label: String = match fee_unit {
        FeeUnit::Wei => "WEI".to_owned(),
        FeeUnit::Fri => "FRI".to_owned(),
    };
    let tx_type = tx_type_of(&body);
    let (sender_address, calldata, signature, nonce, version): (
        Option<String>,
        Vec<String>,
        Vec<String>,
        Option<String>,
        Option<String>,
    ) = match body {
        TxBody::InvokeV0 { contract_address, signature, calldata } => (
            Some(felt_hex(contract_address.as_slice())),
            felt_hex_list(&calldata),
            felt_hex_list(&signature),
            None,
            Some("0".to_owned()),
        ),
        TxBody::InvokeV1 { sender_address, calldata, signature, nonce } => (
            Some(felt_hex(sender_address.as_slice())),
            felt_hex_list(&calldata),
            felt_hex_list(&signature),
            Some(felt_hex(nonce.as_slice())),
            Some("1".to_owned()),
        ),
        TxBody::InvokeV3 { sender_address, calldata, signature, nonce } => (
            Some(felt_hex(sender_address.as_slice())),
            felt_hex_list(&calldata),
            felt_hex_list(&signature),
            Some(felt_hex(nonce.as_slice())),
            Some("3".to_owned()),
        ),
        TxBody::L1Handler { version, nonce, contract_address, calldata } => (
            Some(felt_hex(contract_address.as_slice())),
            felt_hex_list(&calldata),
            Vec::new(),
            Some(u64_to_decimal(nonce)),
            Some(felt_hex(version.as_slice())),
        ),
        TxBody::DeclareV0 { sender_address, signature } => (
            Some(felt_hex(sender_address.as_slice())),
            Vec::new(),
            felt_hex_list(&signature),
            None,
            Some("0".to_owned()),
        ),
        TxBody::DeclareV1 { sender_address, signature, nonce } => (
            Some(felt_hex(sender_address.as_slice())),
            Vec::new(),
            felt_hex_list(&signature),
            Some(felt_hex(nonce.as_slice())),
            Some("1".to_owned()),
        ),
        TxBody::DeclareV2 { sender_address, signature, nonce } => (
            Some(felt_hex(sender_address.as_slice())),
            Vec::new(),
            felt_hex_list(&signature),
            Some(felt_hex(nonce.as_slice())),
            Some("2".to_owned()),
        ),
        TxBody::DeclareV3 { sender_address, signature, nonce } => (
            Some(felt_hex(sender_address.as_slice())),
            Vec::new(),
            felt_hex_list(&signature),
            Some(felt_hex(nonce.as_slice())),
            Some("3".to_owned()),
        ),
        TxBody::Deploy { version, calldata } => (
            None,
            felt_hex_list(&calldata),
            Vec::new(),
            None,
            Some(felt_hex(version.as_slice())),
        ),
        TxBody::DeployAccountV1 { calldata, signature, nonce } => (
            None,
            felt_hex_list(&calldata),
            felt_hex_list(&signature),
            Some(felt_hex(nonce.as_slice())),
            Some("1".to_owned()),
        ),
        TxBody::DeployAccountV3 { calldata, signature, nonce } => (
            None,
            felt_hex_list(&calldata),
            felt_hex_list(&signature),
            Some(felt_hex(nonce.as_slice())),
            Some("3".to_owned()),
        ),
    };
    let r = TransactionDetail {
        tx_hash: felt_hex(tx_hash.as_slice()),
        tx_type,
        status: result,
        block_number,
        tx_index,
        actual_fee: felt_hex(fee_amount.as_slice()),
        fee_unit: fee_unit_label,
        events: event_infos(events),
        messages_sent: message_infos(messages),
        sender_address,
        calldata,
        signature,
        nonce,
        version,
    };
    proof {
        assert(r@ =~~= spec_detail_of(recv, block_number, tx_index));
    }
    r
}

/// The list row of a decoded record.
pub fn transaction_summary_of(rec: &TransactionRecord, block_number: u64, tx_index: usize) -> (r:
    TransactionSummary)
    ensures
        r@.tx_hash == felt_hex_of(rec@.receipt.tx_hash),
        r@.tx_type == spec_tx_type(rec@.body),
        r@.status == rec@.receipt.result,
        r@.block_number == block_number,
        r@.tx_index == tx_index,
{
    let status = match &rec.receipt.result {
        ExecutionStatus::Succeeded => ExecutionStatus::Succeeded,
        ExecutionStatus::Reverted(reason) => ExecutionStatus::Reverted(reason.clone()),
    };
    TransactionSummary {
        tx_hash: felt_hex(rec.receipt.tx_hash.as_slice()),
        tx_type: tx_type_of(&rec.body),
        status,
        block_number,
        tx_index,
    }
}

/// The placeholder detail synthesized when a transaction record cannot be
/// decoded but the block still lists the hash: kind Invoke, status
/// Succeeded, zero fee, empty calldata and signature. A stated
/// approximation, not a claim about the real record.
pub open spec fn spec_fallback_detail(
    tx_hash: Seq<u8>,
    block_number: u64,
    tx_index: usize,
) -> TransactionDetailV {
    TransactionDetailV {
        tx_hash: felt_hex_of(tx_hash),
        tx_type: TransactionType::Invoke,
        status: ExecStatusV::Succeeded,
        block_number,
        tx_index,
        actual_fee: "0x0"@,
        fee_unit: "UNKNOWN"@,
        events: Seq::empty(),
        messages_sent: Seq::empty(),
        sender_address: None,
        calldata: Seq::empty(),
        signature: Seq::empty(),
        nonce: None,
        version: None,
    }
}

/// The transaction-detail lookup policy: decode the record when it is
/// present and well formed; otherwise fall back to the block's hash list
/// and synthesize the placeholder of [`spec_fallback_detail`]; absent both,
/// report nothing found.
pub fn transaction_detail(
    record_bytes: Option<&Vec<u8>>,
    block_bytes: Option<&Vec<u8>>,
    block_number: u64,
    tx_index: u64,
) -> (r: Option<TransactionDetail>)
    ensures
        ({
            let dec = match record_bytes {
                Some(rb) => spec_tx_record(rb@),
                None => None,
            };
            let blk = match block_bytes {
                Some(bb) => crate::block::spec_block_record(bb@),
                None => None,
            };
            match dec {
                Some(recv) => r matches Some(d) && d@ == spec_detail_of(
                    recv,
                    block_number,
                    tx_index as usize,
                ),
                None => match blk {
                    Some(bv) => if tx_index < bv.tx_hashes.len() {
                        r matches Some(d) && d@ == spec_fallback_detail(
                            bv.tx_hashes[tx_index as int],
                            block_number,
                            tx_index as usize,
                        )
                    } else {
                        r is None
                    },
                    None => r is None,
                },
            }
        }),
{
    if let Some(rb) = record_bytes {
        if let Some(rec) = decode_transaction_record(rb) {
            #[verifier::truncate]
            let idx = tx_index as usize;
            return Some(transaction_detail_of(rec, block_number, idx));
        }
    }
    let bb = match block_bytes {
        Some(b) => b,
        None => { return None },
    };
    let block = match crate::block::decode_block_record(bb) {
        Some(b) => b,
        None => { return None },
    };
    if tx_index >= block.tx_hashes.len() as u64 {
        return None;
    }
    let idx = tx_index as usize;
    let tx_hash = felt_hex(block.tx_hashes[idx].as_slice());
    proof {
        reveal_strlit("0x0");
        reveal_strlit("UNKNOWN");
        assert(block.tx_hashes.deep_view()[idx as int] =~= block.tx_hashes@[idx as int]@);
    }
    let r = TransactionDetail {
        tx_hash,
        tx_type: TransactionType::Invoke,
        status: ExecutionStatus::Succeeded,
        block_number,
        tx_index: idx,
        actual_fee: "0x0".to_owned(),
        fee_unit: "UNKNOWN".to_owned(),
        events: Vec::new(),
        messages_sent: Vec::new(),
        sender_address: None,
        calldata: Vec::new(),
        signature: Vec::new(),
        nonce: None,
        version: None,
    };
    proof {
        assert(r@ =~~= spec_fallback_detail(
            crate::block::spec_block_record(bb@)->0.tx_hashes[tx_index as int],
            block_number,
            idx,
        ));
    }
    Some(r)
}

/// The summary rows a block's hash list yields: one per hash, in stored
/// order, with the default kind and status used when records are not
/// decoded.
pub open spec fn spec_block_tx_summaries(tx_hashes: Seq<Seq<u8>>, block_number: u64) -> Seq<
    TransactionSummaryV,
> {
    Seq::new(
        tx_hashes.len(),
        |i: int|
            TransactionSummaryV {
                tx_hash: felt_hex_of(tx_hashes[i]),
                tx_type: TransactionType::Invoke,
                status: ExecStatusV::Succeeded,
                block_number,
                tx_index: i as usize,
            },
    )
}

/// List a block's transactions from its own hash list: one row per hash
/// with kind Invoke and status Succeeded as defaults. A block that is
/// absent or does not decode yields no rows.
pub fn block_transactions(block_bytes: Option<&Vec<u8>>, block_number: u64) -> (r: Vec<
    TransactionSummary,
>)
    ensures
        ({
            let blk = match block_bytes {
                Some(bb) => crate::block::spec_block_record(bb@),
                None => None,
            };
            match blk {
                Some(bv) => r.deep_view() == spec_block_tx_summaries(bv.tx_hashes, block_number),
                None => r@.len() == 0,
            }
        }),
{
    let bb = match block_bytes {
        Some(b) => b,
        None => { return Vec::new() },
    };
    let block = match crate::block::decode_block_record(bb) {
        Some(b) => b,
        None => { return Vec::new() },
    };
    let ghost hashes = block.tx_hashes.deep_view();
    let mut out: Vec<TransactionSummary> = Vec::new();
    let mut i: usize = 0;
    while i < block.tx_hashes.len()
        invariant
            i <= block.tx_hashes@.len(),
            hashes == block.tx_hashes.deep_view(),
            out.deep_view() =~= spec_block_tx_summaries(hashes, block_number).take(i as int),
        decreases block.tx_hashes@.len() - i,
    {
        let ghost pre = out.deep_view();
        let row = TransactionSummary {
            tx_hash: felt_hex(block.tx_hashes[i].as_slice()),
            tx_type: TransactionType::Invoke,
            status: ExecutionStatus::Succeeded,
            block_number,
            tx_index: i,
        };
        proof {
            assert(hashes[i as int] =~= block.tx_hashes@[i as int]@);
            assert(row@ == spec_block_tx_summaries(hashes, block_number)[i as int]);
        }
        out.push(row);
        proof {
            assert(out.deep_view() =~= pre.push(row@));
            assert(spec_block_tx_summaries(hashes, block_number).take(i + 1int) =~= pre.push(
                spec_block_tx_summaries(hashes, block_number)[i as int],
            ));
        }
        i += 1;
    }
    proof {
        assert(spec_block_tx_summaries(hashes, block_number).take(hashes.len() as int)
            =~= spec_block_tx_summaries(hashes, block_number));
    }
    out
}

/// The 6-byte store key of a transaction: the block number as 4 big-endian
/// bytes, then the index within the block as 2 big-endian bytes.
pub fn make_transaction_column_key(block_n: u32, tx_index: u16) -> (r: [u8; 6])
    ensures
        r@.len() == 6,
        crate::block::be32(r@.subrange(0, 4)) == block_n,
        r@[4] == tx_index / 0x100,
        r@[5] == tx_index % 0x100,
{
    let mut key = [0u8; 6];
    key[0] = (block_n / 0x100_0000) as u8;
    key[1] = ((block_n / 0x1_0000) % 0x100) as u8;
    key[2] = ((block_n / 0x100) % 0x100) as u8;
    key[3] = (block_n % 0x100) as u8;
    key[4] = (tx_index / 0x100) as u8;
    key[5] = (tx_index % 0x100) as u8;
    proof {
        assert(crate::block::be32(key@.subrange(0, 4)) == block_n);
    }
    key
}

/// The store key of a transaction addressed by 64-bit numbers, or nothing
/// when either part is out of range for the key layout.
pub fn transaction_key(block_n: u64, tx_index: u64) -> (r: Option<Vec<u8>>)
    ensures
        block_n <= u32::MAX as u64 && tx_index <= u16::MAX as u64 ==> (r matches Some(k)
            && k@.len() == 6 && crate::block::be32(k@.subrange(0, 4)) == block_n && k@[4] as int
            * 0x100 + k@[5] as int == tx_index),
        block_n > u32::MAX as u64 || tx_index > u16::MAX as u64 ==> r is None,
{
    if block_n > u32::MAX as u64 || tx_index > u16::MAX as u64 {
        return None;
    }
    let key = make_transaction_column_key(block_n as u32, tx_index as u16);
    let mut v: Vec<u8> = Vec::new();
    let mut i: usize = 0;
    while i < 6
        invariant
            i <= 6,
            v@ =~= key@.subrange(0, i as int),
        decreases 6 - i,
    {
        v.push(key[i]);
        proof {
            assert(key@.subrange(0, i + 1int) =~= key@.subrange(0, i as int).push(key@[i as int]));
        }
        i += 1;
    }
    proof {
        assert(v@ =~= key@);
        assert(v@.subrange(0, 4) =~= key@.subrange(0, 4));
    }
    Some(v)
}

/// The value of a hash-index record: the block number, then the index
/// within the block; nothing may follow.
pub open spec fn spec_tx_location(s: Seq<u8>) -> Option<(u32, u16)> {
    match spec_varu32(s, 0) {
        Some((block_n, p)) => match crate::codec::spec_varu16(s, p) {
            Some((tx_index, q)) => if q == s.len() {
                Some((block_n, tx_index))
            } else {
                None
            },
            None => None,
        },
        None => None,
    }
}

/// Decode a hash-index value into the block number and transaction index it
/// points at.
pub fn decode_tx_location(bytes: &Vec<u8>) -> (r: Option<(u64, u64)>)
    ensures
        match r {
            Some((b, t)) => spec_tx_location(bytes@) == Some((b as u32, t as u16)) && b
                <= u32::MAX as u64 && t <= u16::MAX as u64,
            None => spec_tx_location(bytes@) is None,
        },
{
    let (block_n, p) = match read_varu32(bytes, 0) {
        Some(x) => x,
        None => { return None },
    };
    let (tx_index, q) = match read_varu16(bytes, p) {
        Some(x) => x,
        None => { return None },
    };
    if q != bytes.len() {
        return None;
    }
    Some((block_n as u64, tx_index as u64))
}

} // verus!
