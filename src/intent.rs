use vstd::prelude::*;

verus! {

/// The domain-separation tag mixed into signed data: scope, version and
/// application, one byte each.
#[derive(Debug, Clone, Copy, PartialEq, Eq, Structural)]
pub struct Intent {
    pub scope: u8,
    pub version: u8,
    pub app_id: u8,
}

/// Scope byte of a transaction to be signed.
pub const TRANSACTION_DATA_SCOPE: u8 = 0;

/// Version byte of the first intent version.
pub const INTENT_VERSION_V0: u8 = 0;

/// Application byte of the Sui chain.
pub const SUI_APP_ID: u8 = 0;

/// The intent under which sponsor transactions are signed.
pub open spec fn sui_transaction_intent() -> Intent {
    Intent { scope: TRANSACTION_DATA_SCOPE, version: INTENT_VERSION_V0, app_id: SUI_APP_ID }
}

/// The canonical encoding of an intent: its three bytes in order.
pub open spec fn intent_bytes(i: Intent) -> Seq<u8> {
    seq![i.scope, i.version, i.app_id]
}

/// The canonical encoding of `payload` wrapped in intent `i`: the intent's
/// bytes followed by the payload's own canonical encoding.
pub open spec fn intent_message_bytes(i: Intent, payload: Seq<u8>) -> Seq<u8> {
    intent_bytes(i) + payload
}

/// The bytes that both signing backends sign for a transaction encoded as
/// `payload`.
pub open spec fn signing_message(payload: Seq<u8>) -> Seq<u8> {
    intent_message_bytes(sui_transaction_intent(), payload)
}

impl Intent {
    /// The intent of a Sui transaction.
    pub fn sui_transaction() -> (r: Intent)
        ensures
            r == sui_transaction_intent(),
    {
        Intent { scope: TRANSACTION_DATA_SCOPE, version: INTENT_VERSION_V0, app_id: SUI_APP_ID }
    }
}

/// A transaction payload, held as its canonical (BCS) encoding. The signer
/// never looks inside it.
#[derive(Debug, PartialEq, Eq)]
pub struct TransactionData {
    bytes: Vec<u8>,
}

impl View for TransactionData {
    type V = Seq<u8>;

    closed spec fn view(&self) -> Seq<u8> {
        self.bytes@
    }
}

impl TransactionData {
    /// The payload whose canonical encoding is `bytes`.
    pub fn from_bcs_bytes(bytes: Vec<u8>) -> (r: TransactionData)
        ensures
            r@ == bytes@,
    {
        TransactionData { bytes }
    }

    /// The canonical encoding of the payload.
    pub fn as_bytes(&self) -> (r: &[u8])
        ensures
            r@ == self@,
    {
        self.bytes.as_slice()
    }
}

/// A payload wrapped in an intent, built afresh for each signing call.
pub struct IntentMessage<'a> {
    pub intent: Intent,
    pub value: &'a TransactionData,
}

impl<'a> IntentMessage<'a> {
    /// Wraps `value` in `intent`.
    pub fn new(intent: Intent, value: &'a TransactionData) -> (r: IntentMessage<'a>)
        ensures
            r.intent == intent,
            r.value == value,
    {
        IntentMessage { intent, value }
    }

    /// The canonical encoding of the message: the intent's three bytes, then
    /// the payload's encoding. It depends on the intent and payload alone.
    pub fn to_bytes(&self) -> (r: Vec<u8>)
        ensures
            r@ == intent_message_bytes(self.intent, self.value@),
    {
        let payload = self.value.as_bytes();
        let mut out: Vec<u8> = Vec::new();
        out.push(self.intent.scope);
        out.push(self.intent.version);
        out.push(self.intent.app_id);
        let mut i: usize = 0;
        while i < payload.len()
            invariant
                payload@ == self.value@,
                i <= payload@.len(),
                out@ == intent_bytes(self.intent) + payload@.subrange(0, i as int),
            decreases payload@.len() - i,
        {
            out.push(payload[i]);
            i = i + 1;
        }
        proof {
            assert(payload@.subrange(0, payload@.len() as int) == payload@);
        }
        out
    }
}

/// The bytes signed for `tx`: `tx` wrapped in the Sui transaction intent and
/// canonically encoded.
pub fn signing_message_of(tx: &TransactionData) -> (r: Vec<u8>)
    ensures
        r@ == signing_message(tx@),
{
    IntentMessage::new(Intent::sui_transaction(), tx).to_bytes()
}

/// Encoding a payload is deterministic: equal payloads give equal bytes, and
/// the bytes always start with the transaction intent, which keeps them apart
/// from messages signed under any other intent.
pub proof fn lemma_signing_message_deterministic(a: Seq<u8>, b: Seq<u8>, other: Intent)
    requires
        a == b,
        other != sui_transaction_intent(),
    ensures
        signing_message(a) == signing_message(b),
        signing_message(a).subrange(0, 3) == intent_bytes(sui_transaction_intent()),
        intent_message_bytes(other, b) != signing_message(a),
{
    assert(signing_message(a).subrange(0, 3) =~= intent_bytes(sui_transaction_intent()));
    let m = intent_message_bytes(other, b);
    assert(m[0] == other.scope && m[1] == other.version && m[2] == other.app_id);
    let s = signing_message(a);
    assert(s[0] == 0 && s[1] == 0 && s[2] == 0);
}

} // verus!
