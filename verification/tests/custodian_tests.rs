use escrow::custodian::custodian_identity;
use escrow::identity::Identity;

fn le_words(bytes: [u8; 32]) -> Identity {
    let w = |i: usize| {
        let mut a = [0u8; 8];
        a.copy_from_slice(&bytes[i * 8..i * 8 + 8]);
        u64::from_le_bytes(a)
    };
    Identity::new(w(0), w(1), w(2), w(3))
}

fn to_bytes(id: &Identity) -> [u8; 32] {
    let mut b = [0u8; 32];
    let ws = [id.w0, id.w1, id.w2, id.w3];
    for i in 0..4 {
        b[i * 8..i * 8 + 8].copy_from_slice(&ws[i].to_le_bytes());
    }
    b
}

#[test]
fn custodian_matches_ledger_derivation() {
    // the custodian must be exactly what the ledger's program-derived-address
    // scheme yields for the seed "escrow" and this program's identity
    let program = Identity::new(41, 42, 43, 44);
    let got = custodian_identity(&program);

    let pid = solana_pubkey::Pubkey::new_from_array(to_bytes(&program));
    let (expected, _bump) = solana_pubkey::Pubkey::find_program_address(&[b"escrow"], &pid);
    assert_eq!(got, le_words(expected.to_bytes()));
}

#[test]
fn custodian_is_deterministic() {
    let program = Identity::new(1, 2, 3, 4);
    assert_eq!(custodian_identity(&program), custodian_identity(&program));
}

#[test]
fn custodian_is_not_the_program_itself() {
    // a derived address is a hash image, never the program identity it was
    // derived from
    let program = Identity::new(5, 6, 7, 8);
    assert_ne!(custodian_identity(&program), program);
}

#[test]
fn custodians_of_distinct_programs_differ() {
    let a = custodian_identity(&Identity::new(1, 0, 0, 0));
    let b = custodian_identity(&Identity::new(2, 0, 0, 0));
    assert_ne!(a, b);
}
