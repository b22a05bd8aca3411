use starks_vm::math::field;
use starks_vm::math::matrix;
use starks_vm::utils::hasher;
use starks_vm::{
    BASE_CYCLE_LENGTH, HASH_DIGEST_SIZE, HASH_NUM_ROUNDS, HASH_STATE_RATE, HASH_STATE_WIDTH,
};

const M: u128 = 340282366920938463463374557953744961537;

#[test]
fn parameters() {
    assert_eq!(6, HASH_STATE_WIDTH);
    assert_eq!(4, HASH_STATE_RATE);
    assert_eq!(2, HASH_DIGEST_SIZE);
    assert_eq!(10, HASH_NUM_ROUNDS);
    assert_eq!(16, BASE_CYCLE_LENGTH);
    assert_eq!(HASH_STATE_WIDTH, hasher::STATE_WIDTH);
    assert_eq!(HASH_STATE_RATE, hasher::STATE_RATE);
    assert_eq!(HASH_DIGEST_SIZE, hasher::DIGEST_SIZE);
    assert_eq!(HASH_NUM_ROUNDS, hasher::NUM_ROUNDS);
    assert_eq!(BASE_CYCLE_LENGTH, hasher::CYCLE_LENGTH);
    assert_eq!(hasher::STATE_WIDTH * hasher::STATE_WIDTH, hasher::MDS.len());
    assert_eq!(hasher::STATE_WIDTH * hasher::STATE_WIDTH, hasher::INV_MDS.len());
    assert_eq!(2 * hasher::STATE_WIDTH, hasher::ARK.len());
    assert!(hasher::ARK.iter().all(|row| row.len() == hasher::CYCLE_LENGTH));
    assert!(hasher::STATE_RATE <= hasher::STATE_WIDTH);
    assert!(hasher::DIGEST_SIZE <= hasher::STATE_RATE);
}

#[test]
fn digest_known_answers() {
    assert_eq!(
        vec![
            279286848567113119869118759719823148634u128,
            74099529548440269876339428048800829206
        ],
        hasher::digest(&[1, 2, 3, 4])
    );
    assert_eq!(
        vec![
            313219213013192731022501163068195900795u128,
            160942592839606264325672932040879117653
        ],
        hasher::digest(&[])
    );
    assert_eq!(
        vec![
            325770709507943575793020394214788590230u128,
            307758163315608979237983299782144502219
        ],
        hasher::digest(&[1])
    );
    assert_eq!(
        vec![
            82906970284934266588726677828286890824u128,
            16567521266654448304288831189159694845
        ],
        hasher::digest(&[M - 1, M - 1, M - 1, M - 1])
    );
}

#[test]
fn digest_has_digest_size_elements() {
    for n in 0..=hasher::STATE_RATE {
        let values = vec![5u128; n];
        assert_eq!(hasher::DIGEST_SIZE, hasher::digest(&values).len());
    }
}

#[test]
fn digest_treats_missing_elements_as_zero() {
    assert_eq!(hasher::digest(&[1, 0, 0, 0]), hasher::digest(&[1]));
    assert_eq!(hasher::digest(&[0, 0, 0, 0]), hasher::digest(&[]));
    assert_ne!(hasher::digest(&[0, 1]), hasher::digest(&[1]));
}

#[test]
fn digest_is_deterministic() {
    let values = [11u128, 22, 33];
    assert_eq!(hasher::digest(&values), hasher::digest(&values));
}

#[test]
fn digest_is_sensitive_to_one_bit() {
    let a = hasher::digest(&[1, 2, 3, 4]);
    let b = hasher::digest(&[0, 2, 3, 4]);
    assert_eq!(
        vec![
            172000318719112979332937070971056711672u128,
            126224669005870134468389152510202434388
        ],
        b
    );
    assert_ne!(a[0], b[0]);
    assert_ne!(a[1], b[1]);
}

#[test]
fn digest_is_ten_rounds_between_two_reversals() {
    let mut state = [0u128, 0, 4, 3, 2, 1];
    for i in 0..hasher::NUM_ROUNDS {
        hasher::apply_round(&mut state, i);
    }
    assert_eq!(vec![state[5], state[4]], hasher::digest(&[1, 2, 3, 4]));
}

#[test]
fn apply_round_known_answer() {
    let mut state = [1u128, 2, 3, 4, 5, 6];
    hasher::apply_round(&mut state, 17);
    assert_eq!(
        [
            84016345818548730660122125098856538908u128,
            133613080170979088700469002512196690683,
            74747647629003519455481722211221976515,
            186263084717577488170368020202191928736,
            254653145186226464794820032131630170036,
            311149361915670383666611942105850804684
        ],
        state
    );
}

#[test]
fn apply_round_is_its_six_steps() {
    let mut whole = [9u128, 8, 7, 6, 5, 4];
    let mut steps = whole;
    hasher::apply_round(&mut whole, 3);

    hasher::add_constants(&mut steps, 3, 0);
    hasher::apply_sbox(&mut steps);
    hasher::apply_mds(&mut steps);
    hasher::add_constants(&mut steps, 3, hasher::STATE_WIDTH);
    hasher::apply_inv_sbox(&mut steps);
    hasher::apply_mds(&mut steps);
    assert_eq!(steps, whole);
}

#[test]
fn round_constants_repeat_after_a_cycle() {
    let mut a = [1u128, 2, 3, 4, 5, 6];
    let mut b = a;
    let mut c = a;
    hasher::apply_round(&mut a, 1);
    hasher::apply_round(&mut b, 1 + hasher::CYCLE_LENGTH);
    hasher::apply_round(&mut c, 2);
    assert_eq!(a, b);
    assert_ne!(a, c);
    let mut d = [1u128, 2, 3, 4, 5, 6];
    hasher::apply_round(&mut d, usize::MAX);
    let mut e = [1u128, 2, 3, 4, 5, 6];
    hasher::apply_round(&mut e, usize::MAX % hasher::CYCLE_LENGTH);
    assert_eq!(d, e);
}

#[test]
fn add_constants_reads_one_column() {
    let mut state = [0u128; 6];
    hasher::add_constants(&mut state, 3, 0);
    for i in 0..6 {
        assert_eq!(hasher::ARK[i][3], state[i]);
    }
    assert_eq!(122001776241989922016768881111033630021, state[0]);

    let mut state = [0u128; 6];
    hasher::add_constants(&mut state, 3, hasher::STATE_WIDTH);
    for i in 0..6 {
        assert_eq!(hasher::ARK[6 + i][3], state[i]);
    }
    assert_eq!(32424193637360906576442956294452323288, state[0]);

    let mut state = [1u128; 6];
    hasher::add_constants(&mut state, 15, hasher::STATE_WIDTH);
    assert_eq!(field::add(63900149356112496372337283043133097338, 1), state[5]);
}

#[test]
fn add_constants_leaves_the_tail_of_a_longer_slice() {
    let mut state = [0u128, 0, 0, 0, 0, 0, 77, 88];
    hasher::add_constants(&mut state, 15, 0);
    assert_eq!(147904845125332345734618546117273133070, state[5]);
    assert_eq!(77, state[6]);
    assert_eq!(88, state[7]);
}

#[test]
fn sbox_cubes_every_lane() {
    let mut state = [1u128, 2, 3, 4, 5, 6];
    hasher::apply_sbox(&mut state);
    assert_eq!([1u128, 8, 27, 64, 125, 216], state);

    let mut longer = [2u128, 2, 2, 2, 2, 2, 2];
    hasher::apply_sbox(&mut longer);
    assert_eq!([8u128, 8, 8, 8, 8, 8, 2], longer);
}

#[test]
fn inv_sbox_known_answer() {
    let mut state = [1u128, 2, 3, 4, 5, 6];
    hasher::apply_inv_sbox(&mut state);
    assert_eq!(
        [
            1u128,
            146452252289230102408377433413881093045,
            55002548225303198415063989762160404662,
            177244067356268197779262405169900392665,
            232208754947474119609224276871282915323,
            323438616345040700817527886316578885655
        ],
        state
    );
}

#[test]
fn inv_sbox_undoes_sbox() {
    let before = [1u128, 2, 3, M - 1, 1 << 100, 0];
    let mut state = before;
    hasher::apply_sbox(&mut state);
    hasher::apply_inv_sbox(&mut state);
    assert_eq!(before, state);
    hasher::apply_inv_sbox(&mut state);
    hasher::apply_sbox(&mut state);
    assert_eq!(before, state);
}

#[test]
fn mds_known_answer() {
    let mut state = [1u128, 2, 3, 4, 5, 6];
    hasher::apply_mds(&mut state);
    assert_eq!(
        [
            206038441018874089899631112417185554065u128,
            47454301513723203975510088499683721376,
            52865389780774481804440098792162744206,
            325194652300402585732992959957241442977,
            284590189751637469265398323384379896163,
            138597464369211906205283437378921331987
        ],
        state
    );
}

#[test]
fn inv_mds_known_answer() {
    let mut state = [1u128, 2, 3, 4, 5, 6];
    hasher::apply_inv_mds(&mut state);
    assert_eq!(
        [
            209101673138175173509960718363014547792u128,
            21342415019827866885055488869358673259,
            159664794021342965704643656801300443041,
            233191989379600679108994481293894919800,
            333137938776825277136835587264687432491,
            16312951482972448111203988000897199543
        ],
        state
    );
}

#[test]
fn inv_mds_undoes_mds() {
    let before = [1u128, 2, 3, M - 1, 1 << 100, 0];
    let mut state = before;
    hasher::apply_mds(&mut state);
    assert_ne!(before, state);
    hasher::apply_inv_mds(&mut state);
    assert_eq!(before, state);
    hasher::apply_inv_mds(&mut state);
    hasher::apply_mds(&mut state);
    assert_eq!(before, state);
}

#[test]
fn mds_times_inverse_is_identity() {
    let w = hasher::STATE_WIDTH;
    for i in 0..w {
        for j in 0..w {
            let mut forward = 0u128;
            let mut backward = 0u128;
            for k in 0..w {
                forward = field::add(
                    forward,
                    field::mul(hasher::MDS[i * w + k], hasher::INV_MDS[k * w + j]),
                );
                backward = field::add(
                    backward,
                    field::mul(hasher::INV_MDS[i * w + k], hasher::MDS[k * w + j]),
                );
            }
            let expected = if i == j { 1 } else { 0 };
            assert_eq!(expected, forward);
            assert_eq!(expected, backward);
        }
    }
}

#[test]
fn matrix_apply_small() {
    let m = [1u128, 2, 3, 4];
    let mut v = [5u128, 6];
    matrix::apply(&m, &mut v);
    assert_eq!([17u128, 39], v);

    let m = [M - 1, 1, 1, M - 1];
    let mut v = [5u128, 6];
    matrix::apply(&m, &mut v);
    assert_eq!([1u128, M - 1], v);

    let mut empty: [u128; 0] = [];
    matrix::apply(&[], &mut empty);
    assert_eq!([0u128; 0], empty);
}
