//! Scanning for an Orchard balance: what one compact action contributes (a
//! spent nullifier, and a note where the viewing key decrypts it), and the
//! unspent balance of what was found. Fetching the blocks is left to the caller.

use vstd::prelude::*;
use orchard::keys::{FullViewingKey, PreparedIncomingViewingKey, Scope};
use orchard::note_encryption::{CompactAction, OrchardDomain};

verus! {

#[verifier::external_type_specification]
#[verifier::external_body]
pub struct ExFullViewingKey(FullViewingKey);

#[verifier::external_type_specification]
#[verifier::external_body]
pub struct ExPreparedIncomingViewingKey(PreparedIncomingViewingKey);

/// The little-endian value of a byte string.
pub open spec fn little_endian(b: Seq<u8>) -> nat
    decreases b.len(),
{
    if b.len() == 0 {
        0
    } else {
        b[0] as nat + 256 * little_endian(b.drop_first())
    }
}

/// The modulus of the Pallas base field.
pub open spec fn pallas_base_modulus() -> nat {
    0x4000_0000_0000_0000_0000_0000_0000_0000_2246_98fc_094c_f91b_992d_30ed_0000_0001nat
}

/// Whether 32 bytes are the canonical encoding of a Pallas base field element
/// (little-endian, below the modulus): what `Nullifier::from_bytes` and
/// `ExtractedNoteCommitment::from_bytes` accept.
pub open spec fn pallas_base_canonical(b: Seq<u8>) -> bool {
    b.len() == 32 && little_endian(b) < pallas_base_modulus()
}

/// What trial decryption of a compact action (nullifier, note commitment,
/// ephemeral key, 52-byte ciphertext prefix) with the incoming viewing key of
/// a raw full viewing key in scope 0 (external) or 1 (internal) finds: the
/// note's value and its nullifier under that viewing key, or `None`.
pub uninterp spec fn orchard_trial_decrypt(
    fvk: Seq<u8>,
    scope: nat,
    nullifier: Seq<u8>,
    cmx: Seq<u8>,
    ephemeral_key: Seq<u8>,
    enc_ciphertext: Seq<u8>,
) -> Option<(u64, Seq<u8>)>;

/// The incoming viewing keys of an Orchard full viewing key, prepared for
/// trial decryption, with the raw key they come from.
pub struct OrchardViewer {
    fvk: FullViewingKey,
    ivks: [PreparedIncomingViewingKey; 2],
    fvk_bytes: [u8; 96],
}

impl OrchardViewer {
    /// The raw full viewing key that the viewer was made from.
    pub closed spec fn key(&self) -> Seq<u8> {
        self.fvk_bytes@
    }
}

/// `FullViewingKey::from_bytes(fvk)` and the two incoming viewing keys
/// (`to_ivk(Scope::External)`, `to_ivk(Scope::Internal)`) prepared with
/// `PreparedIncomingViewingKey::new`. The parse succeeds exactly where the
/// default address can be derived (the same `from_bytes`).
#[verifier::external_body]
pub(crate) fn orchard_viewer(fvk: &[u8; 96]) -> (v: Option<OrchardViewer>)
    ensures
        v is Some <==> crate::orchard_proof::orchard_fvk_address(fvk@) is Some,
        v matches Some(x) ==> x.key() == fvk@,
{
    match FullViewingKey::from_bytes(fvk) {
        Some(k) => {
            let ext = PreparedIncomingViewingKey::new(&k.to_ivk(Scope::External));
            let internal = PreparedIncomingViewingKey::new(&k.to_ivk(Scope::Internal));
            Some(OrchardViewer { fvk: k, ivks: [ext, internal], fvk_bytes: *fvk })
        },
        None => None,
    }
}

/// Whether `Nullifier::from_bytes` accepts the bytes.
#[verifier::external_body]
fn nullifier_canonical(b: &[u8; 32]) -> (ok: bool)
    ensures
        ok == pallas_base_canonical(b@),
{
    bool::from(orchard::note::Nullifier::from_bytes(b).is_some())
}

/// Whether `ExtractedNoteCommitment::from_bytes` accepts the bytes.
#[verifier::external_body]
fn commitment_canonical(b: &[u8; 32]) -> (ok: bool)
    ensures
        ok == pallas_base_canonical(b@),
{
    bool::from(orchard::note::ExtractedNoteCommitment::from_bytes(b).is_some())
}

/// `zcash_note_encryption::try_compact_note_decryption` of the compact action
/// `CompactAction::from_parts(..)` in its `OrchardDomain`, with the prepared
/// incoming viewing key of `scope`; a note found is given by
/// `value().inner()` and `nullifier(fvk).to_bytes()`.
#[verifier::external_body]
fn trial_decrypt(
    viewer: &OrchardViewer,
    scope: usize,
    nf: &[u8; 32],
    cmx: &[u8; 32],
    epk: &[u8; 32],
    enc: &[u8; 52],
) -> (r: Option<(u64, [u8; 32])>)
    requires
        scope < 2,
        pallas_base_canonical(nf@),
        pallas_base_canonical(cmx@),
    ensures
        opt_note(r) == orchard_trial_decrypt(viewer.key(), scope as nat, nf@, cmx@, epk@, enc@),
{
    let action = CompactAction::from_parts(
        orchard::note::Nullifier::from_bytes(nf).unwrap(),
        orchard::note::ExtractedNoteCommitment::from_bytes(cmx).unwrap(),
        zcash_note_encryption::EphemeralKeyBytes(*epk),
        *enc,
    );
    let domain = OrchardDomain::for_compact_action(&action);
    match zcash_note_encryption::try_compact_note_decryption(&domain, &viewer.ivks[scope], &action) {
        Some((note, _)) => Some((note.value().inner(), note.nullifier(&viewer.fvk).to_bytes())),
        None => None,
    }
}

/// The view of an optional note (value, nullifier).
pub open spec fn opt_note(n: Option<(u64, [u8; 32])>) -> Option<(u64, Seq<u8>)> {
    match n {
        Some(x) => Some((x.0, x.1@)),
        None => None,
    }
}

// ── Compact actions ──

/// A 32-byte field of a compact action: the bytes if there are exactly 32,
/// zeros otherwise.
pub open spec fn field32(b: Seq<u8>) -> Seq<u8> {
    if b.len() == 32 {
        b
    } else {
        Seq::new(32, |i: int| 0u8)
    }
}

/// The 52-byte ciphertext prefix of a compact action: the first 52 bytes,
/// padded with zeros.
pub open spec fn ciphertext52(b: Seq<u8>) -> Seq<u8> {
    Seq::new(52, |i: int| if i < b.len() { b[i] } else { 0u8 })
}

/// The 32-byte field of a compact action.
pub fn compact_field32(b: &[u8]) -> (r: [u8; 32])
    ensures
        r@ == field32(b@),
{
    let mut buf = [0u8; 32];
    if b.len() == 32 {
        let mut i: usize = 0;
        while i < 32
            invariant
                i <= 32,
                b@.len() == 32,
                forall|j: int| 0 <= j < i ==> buf@[j] == b@[j],
            decreases 32 - i,
        {
            buf[i] = b[i];
            i = i + 1;
        }
    }
    assert(buf@ =~= field32(b@));
    buf
}

/// The 52-byte ciphertext prefix of a compact action.
pub fn compact_ciphertext(b: &[u8]) -> (r: [u8; 52])
    ensures
        r@ == ciphertext52(b@),
{
    let mut enc = [0u8; 52];
    let len = if b.len() < 52 { b.len() } else { 52 };
    let mut i: usize = 0;
    while i < len
        invariant
            i <= len,
            len <= 52,
            len <= b@.len(),
            len == b@.len() || len == 52,
            forall|j: int| 0 <= j < i ==> enc@[j] == b@[j],
            forall|j: int| i <= j < 52 ==> enc@[j] == 0u8,
        decreases len - i,
    {
        enc[i] = b[i];
        i = i + 1;
    }
    assert(enc@ =~= ciphertext52(b@));
    enc
}

/// What trial decryption finds in an action: the external scope is tried
/// first, then the internal (change) scope.
pub open spec fn action_note(fvk: Seq<u8>, nf: Seq<u8>, cmx: Seq<u8>, epk: Seq<u8>, enc: Seq<u8>) -> Option<(u64, Seq<u8>)> {
    match orchard_trial_decrypt(fvk, 0, nf, cmx, epk, enc) {
        Some(n) => Some(n),
        None => orchard_trial_decrypt(fvk, 1, nf, cmx, epk, enc),
    }
}

/// Both scopes of the viewing key are tried: a note that the external scope
/// decrypts is the one found, and where the external scope finds none, a note
/// that the internal (change) scope decrypts is found; nothing is found only
/// where neither scope decrypts the action.
pub proof fn lemma_action_note_tries_both_scopes(fvk: Seq<u8>, nf: Seq<u8>, cmx: Seq<u8>, epk: Seq<u8>, enc: Seq<u8>)
    ensures
        orchard_trial_decrypt(fvk, 0, nf, cmx, epk, enc) matches Some(n)
            ==> action_note(fvk, nf, cmx, epk, enc) == Some(n),
        orchard_trial_decrypt(fvk, 0, nf, cmx, epk, enc) is None
            ==> action_note(fvk, nf, cmx, epk, enc) == orchard_trial_decrypt(fvk, 1, nf, cmx, epk, enc),
        action_note(fvk, nf, cmx, epk, enc) is None <==> (orchard_trial_decrypt(fvk, 0, nf, cmx, epk, enc) is None
            && orchard_trial_decrypt(fvk, 1, nf, cmx, epk, enc) is None),
{
}

// ── Transparent balance ──

/// The sum of the values of unspent transparent outputs.
pub open spec fn utxo_sum(values: Seq<i64>) -> int
    decreases values.len(),
{
    if values.len() == 0 {
        0
    } else {
        utxo_sum(values.drop_last()) + values.last()
    }
}

/// The sum of the values is their arithmetic sum: nothing for no values, the
/// value itself for one, and the sum of the parts for a concatenation.
pub proof fn lemma_utxo_sum_adds(a: Seq<i64>, b: Seq<i64>, v: i64)
    ensures
        utxo_sum(Seq::empty()) == 0,
        utxo_sum(seq![v]) == v,
        utxo_sum(a.push(v)) == utxo_sum(a) + v,
        utxo_sum(a + b) == utxo_sum(a) + utxo_sum(b),
    decreases b.len(),
{
    assert(seq![v].drop_last() =~= Seq::<i64>::empty());
    assert(a.push(v).drop_last() =~= a);
    if b.len() == 0 {
        assert(a + b =~= a);
    } else {
        lemma_utxo_sum_adds(a, b.drop_last(), v);
        assert((a + b).drop_last() =~= a + b.drop_last());
    }
}

/// Whether every running sum of the values stays within `i64`.
pub open spec fn utxo_sums_fit(values: Seq<i64>) -> bool {
    forall|k: int| 0 <= k <= values.len() ==> i64::MIN <= #[trigger] utxo_sum(values.take(k)) <= i64::MAX
}

/// The balance of a t-address from the values (in zatoshis) of its unspent
/// outputs: their sum as an `i64`, read as a `u64`. `None` where a running sum
/// leaves the range of `i64`.
pub fn transparent_utxo_total(values: &Vec<i64>) -> (r: Option<u64>)
    ensures
        r is Some <==> utxo_sums_fit(values@),
        r matches Some(t) ==> t == (utxo_sum(values@) as i64) as u64,
{
    let mut total: i64 = 0;
    let mut i: usize = 0;
    assert(values@.take(0) =~= Seq::<i64>::empty());
    while i < values.len()
        invariant
            i <= values@.len(),
            total == utxo_sum(values@.take(i as int)),
            forall|k: int| 0 <= k <= i ==> i64::MIN <= #[trigger] utxo_sum(values@.take(k)) <= i64::MAX,
        decreases values@.len() - i,
    {
        assert(values@.take(i + 1).drop_last() =~= values@.take(i as int));
        match total.checked_add(values[i]) {
            Some(t) => {
                total = t;
            },
            None => {
                assert(!(i64::MIN <= utxo_sum(values@.take(i + 1)) <= i64::MAX));
                return None;
            },
        }
        i = i + 1;
    }
    assert(values@.take(values@.len() as int) =~= values@);
    Some(total as u64)
}

// ── Scan state ──

/// Whether `new` is `old` with the nullifier `nf` appended, if there is one.
pub open spec fn spent_extended(old: Seq<[u8; 32]>, new: Seq<[u8; 32]>, nf: Option<Seq<u8>>) -> bool {
    match nf {
        Some(n) => {
            &&& new.len() == old.len() + 1
            &&& new.subrange(0, old.len() as int) == old
            &&& new.last()@ == n
        },
        None => new == old,
    }
}

/// Whether `new` is `old` with the note `found` appended, if there is one.
pub open spec fn notes_extended(
    old: Seq<(u64, [u8; 32])>,
    new: Seq<(u64, [u8; 32])>,
    found: Option<(u64, Seq<u8>)>,
) -> bool {
    match found {
        Some(n) => {
            &&& new.len() == old.len() + 1
            &&& new.subrange(0, old.len() as int) == old
            &&& new.last().0 == n.0
            &&& new.last().1@ == n.1
        },
        None => new == old,
    }
}

/// Whether a nullifier occurs among the spent ones.
pub open spec fn is_spent(spent: Seq<[u8; 32]>, nf: [u8; 32]) -> bool {
    exists|j: int| 0 <= j < spent.len() && #[trigger] spent[j]@ == nf@
}

/// The total value of the notes whose nullifier is not spent.
pub open spec fn unspent_total(notes: Seq<(u64, [u8; 32])>, spent: Seq<[u8; 32]>) -> nat
    decreases notes.len(),
{
    if notes.len() == 0 {
        0
    } else {
        unspent_total(notes.drop_last(), spent) + if is_spent(spent, notes.last().1) {
            0nat
        } else {
            notes.last().0 as nat
        }
    }
}

/// Seeing one more nullifier never raises the unspent balance.
pub proof fn lemma_spend_never_raises_balance(notes: Seq<(u64, [u8; 32])>, spent: Seq<[u8; 32]>, nf: [u8; 32])
    ensures
        unspent_total(notes, spent.push(nf)) <= unspent_total(notes, spent),
    decreases notes.len(),
{
    if notes.len() > 0 {
        lemma_spend_never_raises_balance(notes.drop_last(), spent, nf);
        let last = notes.last().1;
        if is_spent(spent, last) {
            let j = choose|j: int| 0 <= j < spent.len() && #[trigger] spent[j]@ == last@;
            assert(spent.push(nf)[j]@ == last@);
        }
    }
}

/// The unspent balance counts each note found at most once, and none that is
/// spent: it is at most the total value of the notes found.
pub proof fn lemma_unspent_at_most_found(notes: Seq<(u64, [u8; 32])>, spent: Seq<[u8; 32]>)
    ensures
        unspent_total(notes, spent) <= unspent_total(notes, Seq::empty()),
    decreases notes.len(),
{
    if notes.len() > 0 {
        lemma_unspent_at_most_found(notes.drop_last(), spent);
    }
}

/// The notes found and the nullifiers seen while scanning Orchard actions.
pub struct OrchardScan {
    /// (value, nullifier) of each note the viewing key decrypted
    pub notes: Vec<(u64, [u8; 32])>,
    /// nullifiers of all actions seen (these are spends)
    pub spent: Vec<[u8; 32]>,
}

impl OrchardScan {
    /// A scan that has seen nothing.
    pub fn new() -> (s: OrchardScan)
        ensures
            s.notes@ == Seq::<(u64, [u8; 32])>::empty(),
            s.spent@ == Seq::<[u8; 32]>::empty(),
    {
        OrchardScan { notes: Vec::new(), spent: Vec::new() }
    }

    /// Scans one compact action: its nullifier (when it has 32 bytes) is
    /// recorded as spent, and the note that the viewer decrypts from it, if
    /// any, is recorded. Returns `false`, recording no note, where the
    /// nullifier or note commitment field is not a canonical field element:
    /// no compact action can be built from it.
    pub fn scan_action(
        &mut self,
        viewer: &OrchardViewer,
        nullifier: &[u8],
        cmx: &[u8],
        ephemeral_key: &[u8],
        ciphertext: &[u8],
    ) -> (ok: bool)
        ensures
            spent_extended(
                old(self).spent@,
                final(self).spent@,
                if nullifier@.len() == 32 { Some(nullifier@) } else { None },
            ),
            ok == (pallas_base_canonical(field32(nullifier@)) && pallas_base_canonical(field32(cmx@))),
            ok ==> notes_extended(
                old(self).notes@,
                final(self).notes@,
                match orchard_trial_decrypt(
                    viewer.key(),
                    0,
                    field32(nullifier@),
                    field32(cmx@),
                    field32(ephemeral_key@),
                    ciphertext52(ciphertext@),
                ) {
                    Some(n) => Some(n),
                    None => orchard_trial_decrypt(
                        viewer.key(),
                        1,
                        field32(nullifier@),
                        field32(cmx@),
                        field32(ephemeral_key@),
                        ciphertext52(ciphertext@),
                    ),
                },
            ),
            notes_extended(
                old(self).notes@,
                final(self).notes@,
                if ok {
                    action_note(
                        viewer.key(),
                        field32(nullifier@),
                        field32(cmx@),
                        field32(ephemeral_key@),
                        ciphertext52(ciphertext@),
                    )
                } else {
                    None
                },
            ),
    {
        let ghost old_spent = self.spent@;
        let ghost old_notes = self.notes@;
        let nf = compact_field32(nullifier);
        if nullifier.len() == 32 {
            self.spent.push(nf);
            assert(self.spent@.subrange(0, old_spent.len() as int) =~= old_spent);
        }
        let cm = compact_field32(cmx);
        let epk = compact_field32(ephemeral_key);
        let enc = compact_ciphertext(ciphertext);
        if !nullifier_canonical(&nf) || !commitment_canonical(&cm) {
            return false;
        }
        let found = match trial_decrypt(viewer, 0, &nf, &cm, &epk, &enc) {
            Some(n) => Some(n),
            None => trial_decrypt(viewer, 1, &nf, &cm, &epk, &enc),
        };
        match found {
            Some(n) => {
                self.notes.push(n);
                assert(self.notes@.subrange(0, old_notes.len() as int) =~= old_notes);
            },
            None => {},
        }
        true
    }

    /// Whether a nullifier has been seen.
    pub fn is_spent(&self, nf: &[u8; 32]) -> (r: bool)
        ensures
            r == is_spent(self.spent@, *nf),
    {
        let mut i: usize = 0;
        while i < self.spent.len()
            invariant
                i <= self.spent@.len(),
                forall|j: int| 0 <= j < i ==> self.spent@[j]@ != nf@,
            decreases self.spent@.len() - i,
        {
            if crate::text::bytes_equal(self.spent[i].as_slice(), nf.as_slice()) {
                assert(self.spent@[i as int]@ == nf@);
                return true;
            }
            i = i + 1;
        }
        false
    }

    /// The unspent balance: the total value of the notes found whose
    /// nullifiers were not seen; `None` where the total exceeds `u64::MAX`.
    pub fn unspent_balance(&self) -> (r: Option<u64>)
        ensures
            r matches Some(b) ==> b == unspent_total(self.notes@, self.spent@),
            r is None ==> unspent_total(self.notes@, self.spent@) > u64::MAX,
    {
        let mut total: u64 = 0;
        let mut i: usize = 0;
        let mut overflow = false;
        while i < self.notes.len()
            invariant
                i <= self.notes@.len(),
                !overflow ==> total == unspent_total(self.notes@.subrange(0, i as int), self.spent@),
                overflow ==> unspent_total(self.notes@.subrange(0, i as int), self.spent@) > u64::MAX,
            decreases self.notes@.len() - i,
        {
            let (value, nf) = self.notes[i];
            let spent = self.is_spent(&nf);
            proof {
                let s = self.notes@.subrange(0, i + 1);
                assert(s.drop_last() =~= self.notes@.subrange(0, i as int));
                assert(s.last() == self.notes@[i as int]);
            }
            if !spent && !overflow {
                match total.checked_add(value) {
                    Some(t) => {
                        total = t;
                    },
                    None => {
                        overflow = true;
                    },
                }
            }
            i = i + 1;
        }
        assert(self.notes@.subrange(0, self.notes@.len() as int) =~= self.notes@);
        if overflow {
            None
        } else {
            Some(total)
        }
    }
}

} // verus!
