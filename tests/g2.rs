use cp6_782_g2::fields::{Fq, Fq3};
use cp6_782_g2::g2::{G2Affine, G2Prepared};
use cp6_782_g2::params::{g2_generator_x_c0, Parameters};

/// Decimal digits of a little-endian limb sequence, by repeated division by ten.
fn limbs_to_decimal(limbs: &[u64]) -> String {
    let mut v: Vec<u64> = limbs.to_vec();
    let mut digits: Vec<u8> = Vec::new();
    while v.iter().any(|&l| l != 0) {
        let mut rem: u128 = 0;
        for limb in v.iter_mut().rev() {
            let cur = (rem << 64) | (*limb as u128);
            *limb = (cur / 10) as u64;
            rem = cur % 10;
        }
        digits.push(b'0' + rem as u8);
    }
    if digits.is_empty() {
        digits.push(b'0');
    }
    digits.reverse();
    String::from_utf8(digits).unwrap()
}

#[test]
fn cofactor_limbs_match_documented_decimal() {
    let h = Parameters::cofactor();
    assert_eq!(limbs_to_decimal(&h), "43276679045916726782882096851503554444292580777869919574700824986947162516693702667493938255647666346010819253090121562084993205202476199057555142869892665220155573207800985012241638987472334344174208389303164492698303448192856551557283997344470334833850065978668184377503856699635686872344035470027430053642178229054516302338812152178131995800255516474185251732445975837621097393375441662426280154371264547168198834382681059556891327702516519955053315674076980350109237328216856859758931256208439575383786363605925879337208599843910819433766160937121108797819223653884174994325142959644019600");
    assert_eq!(h[0], 0x4b77fca151d50b90);
    assert_eq!(h[30], 0x19e70d3618ca3);
}

#[test]
fn cofactor_inverse_matches_documented_decimal() {
    let inv = Parameters::cofactor_inv();
    assert_eq!(limbs_to_decimal(&inv.limbs), "45586359457219724873147353901735745013467692594291916855200979604570630929674383405372210802279573887880950375598");
}

#[test]
fn coefficients_match_documented_values() {
    let a = Parameters::coeff_a();
    assert_eq!(a.c0, Fq::zero());
    assert_eq!(a.c1, Fq::zero());
    assert_eq!(a.c2, Fq::from_u64(5));
    let b = Parameters::coeff_b();
    assert_eq!(limbs_to_decimal(&b.c0.limbs), "7237353553714858194254855835825640240663090882935418626687402315497764195116318527743248304684159666286416318482685337633828994152723793439622384740540789612754127688659139509552568164770448654259255628317166934203899992395064470477612");
    assert_eq!(b.c1, Fq::zero());
    assert_eq!(b.c2, Fq::zero());
}

#[test]
fn generator_coordinates_match_documented_decimal() {
    let g = G2Affine::generator();
    assert!(!g.infinity);
    assert_eq!(limbs_to_decimal(&g.x.c0.limbs), "13426761183630949215425595811885033211332897733228446437546263564078445562454176776915160094418980045665397361295624472103734543457352048745726512354895954850428989867542989474136256025045975283415690491751906307188562464175510373683338");
    assert_eq!(limbs_to_decimal(&g.x.c1.limbs), "20471601555918880743198170952645906008198510944268658573129351735028343217532386920456705632337352161031960990613816401042894531220068552819818037605513359562118363589199569321421558696125646867661360498323171027455638052943806292028610");
    assert_eq!(limbs_to_decimal(&g.x.c2.limbs), "3905053196875761830053608605277158152930144841844497593936739534395003062685449846381431331169369910535935138116320442345524758217411779027270883193856999691582831339845600938304719916501940381093815781408183227875600753651697934495980");
    assert_eq!(limbs_to_decimal(&g.y.c0.limbs), "8567517639523571619872938228644013584947463594196306323477160496987712111576624702939472765993995586889532559039169098780892505598589581147768095093536988446010255611523736706017580686335404469207486594272103717837888228343074699140243");
    assert_eq!(limbs_to_decimal(&g.y.c1.limbs), "3890537069205870914984502594450293167889863914413852788876350245583932846980126025043974070704295857226211547108005650399870458089721518559480870503159804530091559886149680718531004778697982910253701559194337987238111062202037698927752");
    assert_eq!(limbs_to_decimal(&g.y.c2.limbs), "10936269922612615564271188303104593362724754284143779051599749016735041389483971486958818324356025479751246744831831158558101688599198721653921723013062333636402617118847009085485166284126970598561393411916461254016145116183331671450721");
    assert_eq!(g.x.c0, g2_generator_x_c0());
    assert_eq!(g.x, Parameters::generator_x());
    assert_eq!(g.y, Parameters::generator_y());
}

#[test]
fn prepared_generator_is_not_zero() {
    let p = G2Prepared::from(G2Affine::generator());
    assert!(!p.is_zero());
}

#[test]
fn prepared_identity_is_zero() {
    let p = G2Prepared::from(G2Affine::identity());
    assert!(p.is_zero());
    assert!(G2Affine::identity().is_identity());
}

#[test]
fn default_prepared_is_generator_and_not_zero() {
    let d = G2Prepared::default();
    assert_eq!(d, G2Prepared::from(G2Affine::generator()));
    assert_ne!(d, G2Prepared::from(G2Affine::identity()));
    assert!(!d.is_zero());
}

#[test]
fn prepared_from_reference_copies_the_point() {
    let g = G2Affine::generator();
    let p = G2Prepared::from_ref(&g);
    assert_eq!(p.0, g);
    assert_eq!(p, G2Prepared::from(g));
}

#[test]
fn points_with_one_different_limb_differ() {
    let g = G2Affine::generator();
    let mut y = g.y;
    y.c2.limbs[12] ^= 1;
    let h = G2Affine::new_unchecked(g.x, y);
    assert_ne!(g, h);
    assert_eq!(h.x, g.x);
    assert!(!h.is_identity());
}

#[test]
fn field_elements_compare_by_limbs() {
    assert_eq!(Fq::from_u64(7), Fq::from_u64(7));
    assert_ne!(Fq::from_u64(7), Fq::from_u64(8));
    assert_eq!(Fq::zero().limbs, [0u64; 13]);
    let one = Fq3::new(Fq::from_u64(1), Fq::zero(), Fq::zero());
    assert_ne!(one, Fq3::zero());
    assert_eq!(Fq3::zero(), Fq3::new(Fq::zero(), Fq::zero(), Fq::zero()));
}
