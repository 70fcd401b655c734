//! Modeled ECU flash backup and restore.

use vstd::prelude::*;
use vstd::utf8::encode_utf8;

use crate::expr::{Expr, ExprView, Symbol, dict_expr, entry_views, key, key_view, string_field};
use crate::kernel::{Error, Result, eval_error};
use crate::numtext::{hex_lower, hex_lower_chars, zero_pad};
use crate::text::{concat, string_of};

verus! {

/// The FNV-1a 64-bit offset basis.
pub open spec fn fnv_offset() -> u64 {
    0xcbf29ce484222325u64
}

/// The FNV-1a 64-bit prime.
pub open spec fn fnv_prime() -> u64 {
    0x100000001b3u64
}

/// One FNV-1a step: xor in the byte, then multiply modulo 2^64.
pub open spec fn fnv_step(h: u64, b: u8) -> u64 {
    (((h ^ (b as u64)) as nat * fnv_prime() as nat) % 0x1_0000_0000_0000_0000nat) as u64
}

/// FNV-1a over `data`, starting from `h`.
pub open spec fn fnv1a(h: u64, data: Seq<u8>) -> u64
    decreases data.len(),
{
    if data.len() == 0 {
        h
    } else {
        fnv1a(fnv_step(h, data[0]), data.drop_first())
    }
}

/// The bytes a content key hashes: the ECU label's UTF-8 bytes, a `0xff`
/// separator, then the stock bytes.
pub open spec fn key_input(ecu: Seq<char>, bytes: Seq<u8>) -> Seq<u8> {
    encode_utf8(ecu) + seq![0xffu8] + bytes
}

/// The content key of stock bytes for an ECU: `auto-stock-fnv1a64-`
/// followed by the 64-bit FNV-1a hash as sixteen lowercase hex digits.
pub open spec fn spec_content_key(ecu: Seq<char>, bytes: Seq<u8>) -> Seq<char> {
    "auto-stock-fnv1a64-"@ + zero_pad(hex_lower(fnv1a(fnv_offset(), key_input(ecu, bytes)) as nat), 16)
}

/// Computes a stable content key for modeled stock-map bytes.
pub fn stock_content_key(ecu: &str, bytes: &[u8]) -> (r: String)
    ensures
        r@ == spec_content_key(ecu@, bytes@),
{
    let label = ecu.as_bytes();
    let mut data: Vec<u8> = Vec::new();
    let mut i: usize = 0;
    while i < label.len()
        invariant
            i <= label@.len(),
            data@ == label@.subrange(0, i as int),
        decreases label@.len() - i,
    {
        data.push(label[i]);
        i = i + 1;
        assert(data@ =~= label@.subrange(0, i as int));
    }
    data.push(0xff);
    let mut j: usize = 0;
    let ghost head = data@;
    while j < bytes.len()
        invariant
            j <= bytes@.len(),
            data@ == head + bytes@.subrange(0, j as int),
        decreases bytes@.len() - j,
    {
        data.push(bytes[j]);
        j = j + 1;
        assert(data@ =~= head + bytes@.subrange(0, j as int));
    }
    proof {
        assert(label@.subrange(0, label@.len() as int) =~= label@);
        assert(bytes@.subrange(0, bytes@.len() as int) =~= bytes@);
        assert(data@ =~= key_input(ecu@, bytes@));
    }
    let mut hash: u64 = 0xcbf29ce484222325u64;
    let mut k: usize = 0;
    let n = data.len();
    assert(data@.subrange(0, n as int) =~= data@);
    while k < n
        invariant
            n == data@.len(),
            k <= n,
            fnv1a(hash, data@.subrange(k as int, n as int)) == fnv1a(fnv_offset(), data@),
        decreases n - k,
    {
        let ghost rest = data@.subrange(k as int, n as int);
        assert(rest.drop_first() =~= data@.subrange(k + 1, n as int));
        hash = (hash ^ (data[k] as u64)).wrapping_mul(0x100000001b3u64);
        k = k + 1;
    }
    assert(data@.subrange(0, n as int) =~= data@);
    let digits = hex_lower_chars(hash, 16);
    let prefix = "auto-stock-fnv1a64-";
    let mut out = crate::text::chars_of(prefix);
    let ghost pre = out@;
    let mut m: usize = 0;
    while m < digits.len()
        invariant
            m <= digits@.len(),
            out@ == pre + digits@.subrange(0, m as int),
        decreases digits@.len() - m,
    {
        out.push(digits[m]);
        m = m + 1;
        assert(out@ =~= pre + digits@.subrange(0, m as int));
    }
    assert(digits@.subrange(0, digits@.len() as int) =~= digits@);
    string_of(out.as_slice())
}

/// Whether two byte slices are equal.
pub fn bytes_eq(a: &[u8], b: &[u8]) -> (r: bool)
    ensures
        r == (a@ == b@),
{
    if a.len() != b.len() {
        return false;
    }
    let mut i: usize = 0;
    while i < a.len()
        invariant
            a@.len() == b@.len(),
            i <= a@.len(),
            forall|j: int| 0 <= j < i ==> a@[j] == b@[j],
        decreases a@.len() - i,
    {
        if a[i] != b[i] {
            return false;
        }
        i = i + 1;
    }
    assert(a@ =~= b@);
    true
}

/// Copies a byte slice.
pub fn copy_bytes(a: &[u8]) -> (r: Vec<u8>)
    ensures
        r@ == a@,
{
    let mut r: Vec<u8> = Vec::new();
    let mut i: usize = 0;
    while i < a.len()
        invariant
            i <= a@.len(),
            r@ == a@.subrange(0, i as int),
        decreases a@.len() - i,
    {
        r.push(a[i]);
        i = i + 1;
        assert(r@ =~= a@.subrange(0, i as int));
    }
    assert(a@.subrange(0, a@.len() as int) =~= a@);
    r
}

/// Content-addressed stock-map backup for a modeled ECU.
#[derive(Clone, Debug, PartialEq, Eq)]
pub struct StockMapBackup {
    /// ECU label the stock bytes came from.
    pub ecu: String,
    /// Stable content key for the stock bytes.
    pub content_key: String,
    /// Synthetic stock bytes held by the modeled backup.
    pub bytes: Vec<u8>,
}

impl StockMapBackup {
    /// Builds a stock-map backup and derives its content key.
    pub fn new(ecu: &str, bytes: Vec<u8>) -> (r: Self)
        ensures
            r.ecu@ == ecu@,
            r.bytes@ == bytes@,
            r.content_key@ == spec_content_key(ecu@, bytes@),
    {
        let content_key = stock_content_key(ecu, bytes.as_slice());
        StockMapBackup { ecu: ecu.to_owned(), content_key, bytes }
    }

    /// The reversal artifact an irreversible flash write must carry: the
    /// backup's kind, ECU, content key and bytes.
    pub fn reversal_artifact(&self) -> (r: Expr)
        ensures
            r@ == ExprView::Dict(
                seq![
                    (key_view("kind"@), ExprView::Sym((Some("auto"@), "StockMapBackup"@))),
                    (key_view("ecu"@), ExprView::Text(self.ecu@)),
                    (key_view("content-key"@), ExprView::Text(self.content_key@)),
                    (key_view("bytes"@), ExprView::Bytes(self.bytes@)),
                ],
            ),
    {
        let (k2, v2) = string_field("ecu", self.ecu.as_str());
        let (k3, v3) = string_field("content-key", self.content_key.as_str());
        let entries = vec![
            (key("kind"), Expr::Symbol(Symbol::qualified("auto", "StockMapBackup"))),
            (k2, v2),
            (k3, v3),
            (key("bytes"), Expr::Bytes(copy_bytes(self.bytes.as_slice()))),
        ];
        assert(entry_views(entries@) =~= seq![
            (key_view("kind"@), ExprView::Sym((Some("auto"@), "StockMapBackup"@))),
            (key_view("ecu"@), ExprView::Text(self.ecu@)),
            (key_view("content-key"@), ExprView::Text(self.content_key@)),
            (key_view("bytes"@), ExprView::Bytes(self.bytes@)),
        ]);
        dict_expr(entries)
    }
}

/// The mathematical state of a modeled flash session.
pub struct FlashState {
    /// ECU label.
    pub ecu: Seq<char>,
    /// Stock bytes the session was built with.
    pub stock: Seq<u8>,
    /// Bytes the modeled ECU holds now.
    pub current: Seq<u8>,
}

/// Modeled flash session that never touches a live VCI or ECU.
#[derive(Clone, Debug, PartialEq, Eq)]
pub struct ModeledFlashSession {
    ecu: String,
    stock_bytes: Vec<u8>,
    current_bytes: Vec<u8>,
}

impl View for ModeledFlashSession {
    type V = FlashState;

    closed spec fn view(&self) -> FlashState {
        FlashState { ecu: self.ecu@, stock: self.stock_bytes@, current: self.current_bytes@ }
    }
}

/// Whether `backup` may restore or guard a flash of the session: it names
/// the session's ECU, its content key matches its bytes, and its bytes are
/// the session's stock bytes.
pub open spec fn backup_valid(s: FlashState, ecu: Seq<char>, key: Seq<char>, bytes: Seq<u8>) -> bool {
    &&& ecu == s.ecu
    &&& key == spec_content_key(ecu, bytes)
    &&& bytes == s.stock
}

/// What a flash call leaves a session as: the tuned bytes in place when the
/// backup is valid, the session unchanged otherwise.
pub open spec fn flash_step(s: FlashState, tuned: Seq<u8>, ecu: Seq<char>, key: Seq<char>, bytes: Seq<u8>) -> FlashState {
    if backup_valid(s, ecu, key, bytes) {
        FlashState { current: tuned, ..s }
    } else {
        s
    }
}

/// What a restore call leaves a session as: the stock bytes back in place
/// when the backup is valid, the session unchanged otherwise.
pub open spec fn restore_step(s: FlashState, ecu: Seq<char>, key: Seq<char>, bytes: Seq<u8>) -> FlashState {
    if backup_valid(s, ecu, key, bytes) {
        FlashState { current: s.stock, ..s }
    } else {
        s
    }
}

/// One call on a flash session, with the backup it is given (ECU label,
/// content key, bytes).
pub enum FlashCall {
    /// `flash(tuned, backup)`.
    Flash { tuned: Seq<u8>, ecu: Seq<char>, key: Seq<char>, bytes: Seq<u8> },
    /// `restore(backup)`.
    Restore { ecu: Seq<char>, key: Seq<char>, bytes: Seq<u8> },
}

/// What one call leaves a session as.
pub open spec fn apply_call(s: FlashState, c: FlashCall) -> FlashState {
    match c {
        FlashCall::Flash { tuned, ecu, key, bytes } => flash_step(s, tuned, ecu, key, bytes),
        FlashCall::Restore { ecu, key, bytes } => restore_step(s, ecu, key, bytes),
    }
}

/// What a sequence of calls, first to last, leaves a session as.
pub open spec fn run_calls(s: FlashState, calls: Seq<FlashCall>) -> FlashState
    decreases calls.len(),
{
    if calls.len() == 0 {
        s
    } else {
        apply_call(run_calls(s, calls.drop_last()), calls.last())
    }
}

impl ModeledFlashSession {
    /// Builds a modeled flash session from synthetic stock bytes.
    pub fn new(ecu: &str, stock_bytes: Vec<u8>) -> (r: Self)
        ensures
            r@.ecu == ecu@,
            r@.stock == stock_bytes@,
            r@.current == stock_bytes@,
    {
        let current_bytes = copy_bytes(stock_bytes.as_slice());
        ModeledFlashSession { ecu: ecu.to_owned(), stock_bytes, current_bytes }
    }

    /// Returns the current modeled ECU bytes.
    pub fn read_ecu(&self) -> (r: &[u8])
        ensures
            r@ == self@.current,
    {
        self.current_bytes.as_slice()
    }

    /// Stores a backup of the stock modeled ECU bytes.
    pub fn backup_stock(&self) -> (r: StockMapBackup)
        ensures
            r.ecu@ == self@.ecu,
            r.bytes@ == self@.stock,
            r.content_key@ == spec_content_key(self@.ecu, self@.stock),
            backup_valid(self@, r.ecu@, r.content_key@, r.bytes@),
    {
        StockMapBackup::new(self.ecu.as_str(), copy_bytes(self.stock_bytes.as_slice()))
    }

    /// Applies a modeled flash payload after checking the stock backup.
    pub fn flash(&mut self, tuned_bytes: Vec<u8>, backup: &StockMapBackup) -> (r: Result<()>)
        ensures
            r is Ok <==> backup_valid(old(self)@, backup.ecu@, backup.content_key@, backup.bytes@),
            r is Ok ==> final(self)@ == (FlashState { current: tuned_bytes@, ..old(self)@ }),
            r is Err ==> final(self)@ == old(self)@ && r->Err_0 is Eval,
            final(self)@ == flash_step(old(self)@, tuned_bytes@, backup.ecu@, backup.content_key@, backup.bytes@),
    {
        match self.validate_backup(backup) {
            Ok(()) => {
                self.current_bytes = tuned_bytes;
                Ok(())
            },
            Err(e) => Err(e),
        }
    }

    /// Restores the modeled ECU to the backed-up stock bytes.
    pub fn restore(&mut self, backup: &StockMapBackup) -> (r: Result<Vec<u8>>)
        ensures
            r is Ok <==> backup_valid(old(self)@, backup.ecu@, backup.content_key@, backup.bytes@),
            r is Ok ==> final(self)@ == (FlashState { current: old(self)@.stock, ..old(self)@ })
                && r->Ok_0@ == old(self)@.stock,
            r is Err ==> final(self)@ == old(self)@ && r->Err_0 is Eval,
            final(self)@ == restore_step(old(self)@, backup.ecu@, backup.content_key@, backup.bytes@),
    {
        match self.validate_backup(backup) {
            Ok(()) => {
                self.current_bytes = copy_bytes(backup.bytes.as_slice());
                Ok(copy_bytes(self.current_bytes.as_slice()))
            },
            Err(e) => Err(e),
        }
    }

    fn validate_backup(&self, backup: &StockMapBackup) -> (r: Result<()>)
        ensures
            r is Ok <==> backup_valid(self@, backup.ecu@, backup.content_key@, backup.bytes@),
            r is Err ==> r->Err_0 is Eval,
    {
        if backup.ecu != self.ecu {
            let parts = vec![
                "stock-map backup for ECU ",
                backup.ecu.as_str(),
                " cannot restore ECU ",
                self.ecu.as_str(),
            ];
            return Err(Error::Eval(concat(parts.as_slice())));
        }
        let expected = stock_content_key(backup.ecu.as_str(), backup.bytes.as_slice());
        if backup.content_key != expected {
            return Err(eval_error("stock-map backup content key does not match bytes"));
        }
        if !bytes_eq(backup.bytes.as_slice(), self.stock_bytes.as_slice()) {
            return Err(eval_error("stock-map backup bytes do not match modeled stock"));
        }
        Ok(())
    }
}

/// A backup taken from a session stays valid through any flash: after a
/// flash guarded by a valid backup, restoring from that backup brings back
/// the stock bytes, and neither step changes the ECU label or stock bytes.
pub proof fn lemma_flash_then_restore(s: FlashState, tuned: Seq<u8>, ecu: Seq<char>, key: Seq<char>, bytes: Seq<u8>)
    requires
        backup_valid(s, ecu, key, bytes),
    ensures
        backup_valid(FlashState { current: tuned, ..s }, ecu, key, bytes),
        (FlashState { current: s.stock, ..FlashState { current: tuned, ..s } }).current == bytes,
{
}

/// A session keeps its ECU label and stock bytes through any sequence of
/// flash and restore calls, successful or not: so `backup_stock` gives the
/// same backup after them as before, and a backup valid at the start stays
/// valid.
pub proof fn lemma_calls_keep_label_and_stock(s: FlashState, calls: Seq<FlashCall>)
    ensures
        run_calls(s, calls).ecu == s.ecu,
        run_calls(s, calls).stock == s.stock,
        spec_content_key(run_calls(s, calls).ecu, run_calls(s, calls).stock) == spec_content_key(s.ecu, s.stock),
        backup_valid(run_calls(s, calls), s.ecu, spec_content_key(s.ecu, s.stock), s.stock),
    decreases calls.len(),
{
    if calls.len() > 0 {
        lemma_calls_keep_label_and_stock(s, calls.drop_last());
    }
}

} // verus!
