use vstd::prelude::*;

use crate::fields::{
    base_modulus, fq3_add, fq3_mul, fq3_square, scalar_modulus, Fq, Fq3, Fq3Value, Fr,
};
use crate::limbs::{limbs_value, limbs_value_from};

verus! {

/// The cofactor h of the subgroup: the order of the curve group over Fq3
/// divided by r.
pub open spec fn cofactor_value() -> nat {
    43276679045916726782882096851503554444292580777869919574700824986947162516693702667493938255647666346010819253090121562084993205202476199057555142869892665220155573207800985012241638987472334344174208389303164492698303448192856551557283997344470334833850065978668184377503856699635686872344035470027430053642178229054516302338812152178131995800255516474185251732445975837621097393375441662426280154371264547168198834382681059556891327702516519955053315674076980350109237328216856859758931256208439575383786363605925879337208599843910819433766160937121108797819223653884174994325142959644019600nat
}

/// The inverse of the cofactor modulo r.
pub open spec fn cofactor_inv_value() -> nat {
    45586359457219724873147353901735745013467692594291916855200979604570630929674383405372210802279573887880950375598nat
}

/// The first coordinate of the generator's x.
pub open spec fn g2_generator_x_c0_value() -> nat {
    13426761183630949215425595811885033211332897733228446437546263564078445562454176776915160094418980045665397361295624472103734543457352048745726512354895954850428989867542989474136256025045975283415690491751906307188562464175510373683338nat
}

/// The second coordinate of the generator's x.
pub open spec fn g2_generator_x_c1_value() -> nat {
    20471601555918880743198170952645906008198510944268658573129351735028343217532386920456705632337352161031960990613816401042894531220068552819818037605513359562118363589199569321421558696125646867661360498323171027455638052943806292028610nat
}

/// The third coordinate of the generator's x.
pub open spec fn g2_generator_x_c2_value() -> nat {
    3905053196875761830053608605277158152930144841844497593936739534395003062685449846381431331169369910535935138116320442345524758217411779027270883193856999691582831339845600938304719916501940381093815781408183227875600753651697934495980nat
}

/// The first coordinate of the generator's y.
pub open spec fn g2_generator_y_c0_value() -> nat {
    8567517639523571619872938228644013584947463594196306323477160496987712111576624702939472765993995586889532559039169098780892505598589581147768095093536988446010255611523736706017580686335404469207486594272103717837888228343074699140243nat
}

/// The second coordinate of the generator's y.
pub open spec fn g2_generator_y_c1_value() -> nat {
    3890537069205870914984502594450293167889863914413852788876350245583932846980126025043974070704295857226211547108005650399870458089721518559480870503159804530091559886149680718531004778697982910253701559194337987238111062202037698927752nat
}

/// The third coordinate of the generator's y.
pub open spec fn g2_generator_y_c2_value() -> nat {
    10936269922612615564271188303104593362724754284143779051599749016735041389483971486958818324356025479751246744831831158558101688599198721653921723013062333636402617118847009085485166284126970598561393411916461254016145116183331671450721nat
}

/// The first coordinate of the coefficient B.
pub open spec fn coeff_b_c0_value() -> nat {
    7237353553714858194254855835825640240663090882935418626687402315497764195116318527743248304684159666286416318482685337633828994152723793439622384740540789612754127688659139509552568164770448654259255628317166934203899992395064470477612nat
}

/// The coefficient A of the curve equation: (0, 0, 5).
pub open spec fn coeff_a_value() -> Fq3Value {
    (0, 0, 5)
}

/// The coefficient B of the curve equation: (b, 0, 0).
pub open spec fn coeff_b_value() -> Fq3Value {
    (coeff_b_c0_value() as int, 0, 0)
}

pub open spec fn generator_x_value() -> Fq3Value {
    (
        g2_generator_x_c0_value() as int,
        g2_generator_x_c1_value() as int,
        g2_generator_x_c2_value() as int,
    )
}

pub open spec fn generator_y_value() -> Fq3Value {
    (
        g2_generator_y_c0_value() as int,
        g2_generator_y_c1_value() as int,
        g2_generator_y_c2_value() as int,
    )
}

/// Whether (x, y) satisfies y^2 = x^3 + A * x + B over Fq3.
pub open spec fn satisfies_curve_equation(x: Fq3Value, y: Fq3Value) -> bool {
    fq3_square(y) == fq3_add(
        fq3_add(fq3_mul(fq3_square(x), x), fq3_mul(coeff_a_value(), x)),
        coeff_b_value(),
    )
}

/// The first coordinate of the generator's x.
pub fn g2_generator_x_c0() -> (r: Fq)
    ensures
        r.value() == g2_generator_x_c0_value(),
        r.wf(),
{
    let limbs: [u64; 13] = [
        0x1e904e64b34a508a, 0x140a5d2c94a82c85, 0x57a3be40c0b79eb7, 0xb3eba70d7a18ccf6,
        0x87cbf952e0044f3e, 0xf5367c4c93460c44, 0x47bc80b7c365f07e, 0xc2d47dc8f9ca3869,
        0x156f7531faa05de3, 0x1a945319abe8e8db, 0x94b90151b368d771, 0x606aad50247559ec,
        0x00000000000021c8,
    ];
    proof {
        assert(limbs_value(limbs@) == g2_generator_x_c0_value()) by {
            reveal_with_fuel(limbs_value_from, 14);
        }
    }
    Fq { limbs }
}

/// The second coordinate of the generator's x.
pub fn g2_generator_x_c1() -> (r: Fq)
    ensures
        r.value() == g2_generator_x_c1_value(),
        r.wf(),
{
    let limbs: [u64; 13] = [
        0x5f43c7480bafecc2, 0x8a7575effecf25dc, 0xec5a1f433eea2e2d, 0x5cdbd8a32f7d639a,
        0x275a66e05383e3fb, 0xc490044f629a0587, 0xd719577721389d68, 0x026f4022621feb00,
        0xa7774d27f75eede2, 0xfbe94053b18f089f, 0xf513389bae030930, 0x102875909177704c,
        0x0000000000003382,
    ];
    proof {
        assert(limbs_value(limbs@) == g2_generator_x_c1_value()) by {
            reveal_with_fuel(limbs_value_from, 14);
        }
    }
    Fq { limbs }
}

/// The third coordinate of the generator's x.
pub fn g2_generator_x_c2() -> (r: Fq)
    ensures
        r.value() == g2_generator_x_c2_value(),
        r.wf(),
{
    let limbs: [u64; 13] = [
        0xa2309c21c60170ec, 0xaad2a5a9407721fd, 0xcff2ca437204c539, 0x1e9c84746b460c01,
        0x579702d6eae8be62, 0x68931d82175e9dd7, 0xb0280c357cbef87b, 0xd0295739892b0475,
        0x5053c79254dd2531, 0xd578db3f2d81e8b9, 0x5fb100a55f55a5da, 0x4d8832053f5f6daf,
        0x00000000000009d3,
    ];
    proof {
        assert(limbs_value(limbs@) == g2_generator_x_c2_value()) by {
            reveal_with_fuel(limbs_value_from, 14);
        }
    }
    Fq { limbs }
}

/// The first coordinate of the generator's y.
pub fn g2_generator_y_c0() -> (r: Fq)
    ensures
        r.value() == g2_generator_y_c0_value(),
        r.wf(),
{
    let limbs: [u64; 13] = [
        0xa116d5f3d75cdc93, 0x3a34e574c9458cf1, 0x15899493312a6be1, 0x5ff34f87d395ecdf,
        0xd17862f5e1431a28, 0xfa2156698edc15f3, 0x30223c74564ca0ab, 0xbbca9a948adf6479,
        0x1356fa3e6c8b974e, 0x8346b38422b93657, 0x0cc667bbf01e7917, 0x772f9c57ff3c447c,
        0x000000000000158e,
    ];
    proof {
        assert(limbs_value(limbs@) == g2_generator_y_c0_value()) by {
            reveal_with_fuel(limbs_value_from, 14);
        }
    }
    Fq { limbs }
}

/// The second coordinate of the generator's y.
pub fn g2_generator_y_c1() -> (r: Fq)
    ensures
        r.value() == g2_generator_y_c1_value(),
        r.wf(),
{
    let limbs: [u64; 13] = [
        0x0803044aa9759c88, 0x95150941edd64bc7, 0x4e3ca2ec0026a33e, 0x8eb96c566652065c,
        0xfb20fd1c49b58c7f, 0x103943ab0b2fd664, 0x3d3b98fa44404230, 0x270719673410d2aa,
        0x6c43eca5f3f5379c, 0x6c94f1277b954183, 0x347b5159155139d9, 0xf3eb1201d8bea472,
        0x00000000000009c9,
    ];
    proof {
        assert(limbs_value(limbs@) == g2_generator_y_c1_value()) by {
            reveal_with_fuel(limbs_value_from, 14);
        }
    }
    Fq { limbs }
}

/// The third coordinate of the generator's y.
pub fn g2_generator_y_c2() -> (r: Fq)
    ensures
        r.value() == g2_generator_y_c2_value(),
        r.wf(),
{
    let limbs: [u64; 13] = [
        0xd82a66fe24bd2461, 0x46545e7c20bfe7fa, 0x1b11355ad77cdaec, 0x18eb599ea57bddf2,
        0xb9c5e77071f6679d, 0xc32e42eaca1ccdaf, 0xd82c8956852317d3, 0x41bdaa65bfdd9d71,
        0xc045896464e07b6c, 0xc1a3f2bce8c03f95, 0xe1e64c218d83e5d3, 0x36d2e6ca26cd8d3b,
        0x0000000000001b84,
    ];
    proof {
        assert(limbs_value(limbs@) == g2_generator_y_c2_value()) by {
            reveal_with_fuel(limbs_value_from, 14);
        }
    }
    Fq { limbs }
}

/// The first coordinate of the coefficient B.
pub fn coeff_b_c0() -> (r: Fq)
    ensures
        r.value() == coeff_b_c0_value(),
        r.wf(),
{
    let limbs: [u64; 13] = [
        0x56dd455b11a91b2c, 0x18f711df8afb33d8, 0x09acbf999e9df528, 0x04d1eb627c9e5ade,
        0x89d4dd0af1493650, 0xd76c1b52ed1e66d7, 0x9006631a4e5c6749, 0x3603fbc631fa7531,
        0xcfb5da09c96e7326, 0x5284f9b8c57cd5d5, 0xf92a270de691b797, 0xafe56081eacc0336,
        0x0000000000001235,
    ];
    proof {
        assert(limbs_value(limbs@) == coeff_b_c0_value()) by {
            reveal_with_fuel(limbs_value_from, 14);
        }
    }
    Fq { limbs }
}

/// The curve configuration of G2: the cofactor, its inverse modulo r, the
/// coefficients A and B, and the generator.
#[derive(Clone, Copy, Debug, PartialEq, Eq, Structural)]
pub struct Parameters;

impl Parameters {
    /// The cofactor, as 64-bit limbs, least significant first.
    pub fn cofactor() -> (r: [u64; 31])
        ensures
            limbs_value(r@) == cofactor_value(),
    {
        let limbs: [u64; 31] = [
        0x4b77fca151d50b90, 0x8c98a12bd486d2fb, 0x1f0c9a51593693f8, 0x1d6f388069c063c1,
        0x556e918748f06793, 0x2cea7dc01aae2140, 0x4216f0595cee44d0, 0x7a5e400154f633cf,
        0xbb74eb9b6630846b, 0x8eb48c92998f3358, 0xbedd37f629e8e634, 0xc541018fe4d10cc7,
        0x574956a099ace2c3, 0xa597504275948226, 0x7ecaaf050acb91f3, 0x0f25b044f4e9c932,
        0xf8c39cbf0df97780, 0xd8f9eda95d6abf3e, 0xd1d80da227dd39c1, 0x8b589c61531dbce7,
        0xfee4439281455474, 0x9eea59baa2aeb4a1, 0xa3b8a42c4e1e6f5a, 0xc4b99b0d9b077d21,
        0xd09033887d09b4d2, 0x4a86d8ebb7fdf52a, 0xbe7ce44dd084e05d, 0x4ed25f7ebe6c44b3,
        0xd7f8e3ef00255961, 0xa1ad2ad61580ef78, 0x00019e70d3618ca3,
    ];
        proof {
            assert(limbs_value_from(limbs@, 16) == 240734518070189204692901130687627463128092775354332271950051767502411281468225116242753407589567197513410769193473313289161797816894676059016915418909804997709717061797771785143423281294238295493376634827834110186010804390367766765321866656834866301480335274192892015556480709290456960nat) by {
                reveal_with_fuel(limbs_value_from, 16);
            }
            assert(limbs_value(limbs@) == cofactor_value()) by {
                reveal_with_fuel(limbs_value_from, 17);
            }
        }
        limbs
    }

    /// The inverse of the cofactor modulo r.
    pub fn cofactor_inv() -> (r: Fr)
        ensures
            r.value() == cofactor_inv_value(),
            r.wf(),
    {
        let limbs: [u64; 6] = [
        0x814d7148062ee4ae, 0x404d1970b0f83faa, 0x534016cbde068993, 0x051c805a499f0cf1,
        0x3a53cd9b0200b634, 0x004bd27d20d2e5d2,
    ];
        proof {
            assert(limbs_value(limbs@) == cofactor_inv_value()) by {
                reveal_with_fuel(limbs_value_from, 7);
            }
        }
        Fr { limbs }
    }

    /// The coefficient A of the curve equation.
    pub fn coeff_a() -> (r: Fq3)
        ensures
            r.value() == coeff_a_value(),
            r.wf(),
    {
        Fq3::new(Fq::zero(), Fq::zero(), Fq::from_u64(5))
    }

    /// The coefficient B of the curve equation.
    pub fn coeff_b() -> (r: Fq3)
        ensures
            r.value() == coeff_b_value(),
            r.wf(),
    {
        Fq3::new(coeff_b_c0(), Fq::zero(), Fq::zero())
    }

    /// The x coordinate of the generator.
    pub fn generator_x() -> (r: Fq3)
        ensures
            r.value() == generator_x_value(),
            r.wf(),
    {
        Fq3::new(g2_generator_x_c0(), g2_generator_x_c1(), g2_generator_x_c2())
    }

    /// The y coordinate of the generator.
    pub fn generator_y() -> (r: Fq3)
        ensures
            r.value() == generator_y_value(),
            r.wf(),
    {
        Fq3::new(g2_generator_y_c0(), g2_generator_y_c1(), g2_generator_y_c2())
    }
}

/// The cofactor times its stored inverse is one modulo r.
pub proof fn lemma_cofactor_inverse()
    ensures
        (cofactor_value() * cofactor_inv_value()) % scalar_modulus() == 1,
{
}

/// The square of the generator's y.
proof fn lemma_generator_y_squared()
    ensures
        fq3_square(generator_y_value()) == (8307779249122293215810922860956843043424025249505371332203752392302574174643431931401618979590818566657309673680558729327700854666735323159124848402494544182369794198876789855732143028261814163294218394815562341645668568212007249407058int, 7623165210091585016677270009393956626735202252571040713812977357128234977160438818362422814399753745239473223712673710732568558295023726403363911235726633138342855468616615172673712397154437293893911967728019224901720824430470564653534int, 21752818572438439058038894490268809449340693517480341094161878770222809052343478188359581636791472202264418658575423697976632234846613002629113083421762228322848180418933453174400367998563204697202995515801307541617547864045061044617909int),
{
    let a: Fq3Value = (8567517639523571619872938228644013584947463594196306323477160496987712111576624702939472765993995586889532559039169098780892505598589581147768095093536988446010255611523736706017580686335404469207486594272103717837888228343074699140243int, 3890537069205870914984502594450293167889863914413852788876350245583932846980126025043974070704295857226211547108005650399870458089721518559480870503159804530091559886149680718531004778697982910253701559194337987238111062202037698927752int, 10936269922612615564271188303104593362724754284143779051599749016735041389483971486958818324356025479751246744831831158558101688599198721653921723013062333636402617118847009085485166284126970598561393411916461254016145116183331671450721int);
    let b: Fq3Value = (8567517639523571619872938228644013584947463594196306323477160496987712111576624702939472765993995586889532559039169098780892505598589581147768095093536988446010255611523736706017580686335404469207486594272103717837888228343074699140243int, 3890537069205870914984502594450293167889863914413852788876350245583932846980126025043974070704295857226211547108005650399870458089721518559480870503159804530091559886149680718531004778697982910253701559194337987238111062202037698927752int, 10936269922612615564271188303104593362724754284143779051599749016735041389483971486958818324356025479751246744831831158558101688599198721653921723013062333636402617118847009085485166284126970598561393411916461254016145116183331671450721int);
    assert(a.0 * b.0 == 73402358503547552498356529666466375406664336348860408137708149137979562385470890089402567690670140513826310298467218994681808321285757321806893284932661463755810789057895559397779388127256284974353225536420227300303979329435554148206404813256856515339246273117887076510966764548790019478426227574671468169836593250995321172185756443902865199320783436479120996832913160835689171856511123039998783468763636788774981442730677943748933690014136752664910708976251043382099049int);
    assert(a.0 * b.1 == 33332244967641637581986626806524042656937219443992133561793025110459862500555174657089738124927924667398833637672703487129025582414541464622820689946356659220561207339313942330345078575763420523652952408909910585927505454105457729202301669425393325979616410157644457475253500501341721610175571758699758248513040823148369773168215841890544880866025476180757931857143455476072641853450081916189465118975562988222624592082912116962924626791715535724393746147513157372723736int);
    assert(a.0 * b.2 == 93696685472574669369569323901367406871911974134507529397691312217212088473581823699952563497089962760222942284645969991211426488292027892663572648703331348701243510091433524481848309556487420389282141848725282262790551300298018364018447419737458043851372064346009366811118086078698485161376850189078348133130129502739022674111088704555690335320076534202107464833456531942727114290513588481188085931915067649840294348981988504781709303695666279982589541409984007242465203int);
    assert(a.1 * b.0 == 33332244967641637581986626806524042656937219443992133561793025110459862500555174657089738124927924667398833637672703487129025582414541464622820689946356659220561207339313942330345078575763420523652952408909910585927505454105457729202301669425393325979616410157644457475253500501341721610175571758699758248513040823148369773168215841890544880866025476180757931857143455476072641853450081916189465118975562988222624592082912116962924626791715535724393746147513157372723736int);
    assert(a.1 * b.1 == 15136278686865007613394692642107634790064863859347317255155799268701088390649269003480859156869595166590312976753377361005026231698654726862057669791420488148765091495235215931260770606563754752243574413892690520917189389529513290711652249333448685339504334542048205706198779896946941645323847976836949703301874639651103627948363369438355995788319690485703481678104624972571542430152796225508962687203363811563154328070533904375086889181430382713811773268961650515773504int);
    assert(a.1 * b.2 == 42547963532765602075329164608475590450179901202441050866850065788302786459988907843871207598587904779266930790029028363515026049131574237550600817928793803092467084130888073954092487572307296747262800789751951027101175963595420184813882974132278909768907712083569211237299677113056106847791978179280892360863517176619990689209176859421733457081789911100532206718242073315852873294714722520845902977109401402055022883840155266317048877579955269602798675416316132007309192int);
    assert(a.2 * b.0 == 93696685472574669369569323901367406871911974134507529397691312217212088473581823699952563497089962760222942284645969991211426488292027892663572648703331348701243510091433524481848309556487420389282141848725282262790551300298018364018447419737458043851372064346009366811118086078698485161376850189078348133130129502739022674111088704555690335320076534202107464833456531942727114290513588481188085931915067649840294348981988504781709303695666279982589541409984007242465203int);
    assert(a.2 * b.1 == 42547963532765602075329164608475590450179901202441050866850065788302786459988907843871207598587904779266930790029028363515026049131574237550600817928793803092467084130888073954092487572307296747262800789751951027101175963595420184813882974132278909768907712083569211237299677113056106847791978179280892360863517176619990689209176859421733457081789911100532206718242073315852873294714722520845902977109401402055022883840155266317048877579955269602798675416316132007309192int);
    assert(a.2 * b.2 == 119601999820241344422951406810469273672201922408577817378028076142855280791719296385948142938865160965290160967743076858100212728281785340567320632636512289992034448126250519791060736501827721789477204879651859356833942274192829581263462289163397695130480913119180433922174943803065107974671916487673454577508806188481134481836069889764941465804752417662937871767334920074862232277279452915397028580703447991058135097552145409383501006522811965970059414187109372731419841int);
}
/// The square of the generator's x.
proof fn lemma_generator_x_squared()
    ensures
        fq3_square(generator_x_value()) == (8460983549223203293255756411799426498776481174209356952314440827606037559199414602597644483997371161915498222330739699634591501674861194539248693997227526297150004986268014793501985742354733351632899534403046542767497765990954980409206int, 7324164587818795029788245912207482449258779378710883192789396529461163347895682999898292354707197742889833301609338536826732863382845531678341331868982752004244299991531278864999220404024661838469706147845701502491345883552786812383684int, 15487167868783448806555433399539141972644673836931051675713749088987032481649109072271984513037505188697019827437523463924510596577802347814639791360745622725584392335596344152191827214253227626453026270152540025671236535585678063056359int),
{
    let a: Fq3Value = (13426761183630949215425595811885033211332897733228446437546263564078445562454176776915160094418980045665397361295624472103734543457352048745726512354895954850428989867542989474136256025045975283415690491751906307188562464175510373683338int, 20471601555918880743198170952645906008198510944268658573129351735028343217532386920456705632337352161031960990613816401042894531220068552819818037605513359562118363589199569321421558696125646867661360498323171027455638052943806292028610int, 3905053196875761830053608605277158152930144841844497593936739534395003062685449846381431331169369910535935138116320442345524758217411779027270883193856999691582831339845600938304719916501940381093815781408183227875600753651697934495980int);
    let b: Fq3Value = (13426761183630949215425595811885033211332897733228446437546263564078445562454176776915160094418980045665397361295624472103734543457352048745726512354895954850428989867542989474136256025045975283415690491751906307188562464175510373683338int, 20471601555918880743198170952645906008198510944268658573129351735028343217532386920456705632337352161031960990613816401042894531220068552819818037605513359562118363589199569321421558696125646867661360498323171027455638052943806292028610int, 3905053196875761830053608605277158152930144841844497593936739534395003062685449846381431331169369910535935138116320442345524758217411779027270883193856999691582831339845600938304719916501940381093815781408183227875600753651697934495980int);
    assert(a.0 * b.0 == 180277915882258768357639486255776842873194204495813710231454747957259201374127014159372668812958170314033610002145300900415148129127846018498409696904754467143389141529894358038083212422151436052063629280206128002944666598875939318823296520253894254682636886262686099547794446712390197120183639229916071607111629717188668390845547699012970012565217807829516123827811188801780167057964057133368975571230051012213206846470929882959916206713959094917829320128943997098822244int);
    assert(a.0 * b.1 == 274867305137770572799791817316961889653030124207251788486188959519433666691349496427666599130881719567260028702099873088473249076575706607487923165273331669619782177952573246533421318023848423698517370622189775108170258285842076811052912196391782098479649869622630386681128677692527126367670877604902101966651405107801547094492763298670245603036123031661120583248103856667848871459020871956921935884835784892551011037224531739131288240043570591530246271242971753776300180int);
    assert(a.0 * b.2 == 52432216683825426064080811495387988095292578012807031071269730464458651525172550137781524582649150824713757400324196462243938755806978347859114511693148118325793134198840653886043688801081694730635409826944592586010180486456787775016769099933832565348921343308021513115420830644273442123727309036235338424329979062180660160529845979076148206329026652294325814225807411283781151481133246750657833493982239189526412621748029457144077534097184900680471260282979963153981240int);
    assert(a.1 * b.0 == 274867305137770572799791817316961889653030124207251788486188959519433666691349496427666599130881719567260028702099873088473249076575706607487923165273331669619782177952573246533421318023848423698517370622189775108170258285842076811052912196391782098479649869622630386681128677692527126367670877604902101966651405107801547094492763298670245603036123031661120583248103856667848871459020871956921935884835784892551011037224531739131288240043570591530246271242971753776300180int);
    assert(a.1 * b.1 == 419086470264300338928474806114903944597096806374665387944315901561520407990554973547847836114740385715949742345806027507617146715287257124984071860601264025612312933425446017412492395373935650239277458618463523276710923614901868442434542793226857713377468360562130123075615380683847991410729409717338853447109323167708658357990077648748455608677651024448810732408641166218229864501756354343217732120091617131615252073748796580756420353878439786228294208233860029058532100int);
    assert(a.1 * b.2 == 79942693101107845205708693078401762124337792776655023898320515465263022274841839018626849197297604055604118036376722990983301591704030547087607925195949950780411190805651279968756886197477202014526722130046766004367135765764606855191540213956268843276496565862895418033302295837900995014106128988744889072852208236257176381045564937488165583137854125808921647337285250127042667739307167151943055077091438809186127766890413291430779570426024063567353653644850612089987800int);
    assert(a.2 * b.0 == 52432216683825426064080811495387988095292578012807031071269730464458651525172550137781524582649150824713757400324196462243938755806978347859114511693148118325793134198840653886043688801081694730635409826944592586010180486456787775016769099933832565348921343308021513115420830644273442123727309036235338424329979062180660160529845979076148206329026652294325814225807411283781151481133246750657833493982239189526412621748029457144077534097184900680471260282979963153981240int);
    assert(a.2 * b.1 == 79942693101107845205708693078401762124337792776655023898320515465263022274841839018626849197297604055604118036376722990983301591704030547087607925195949950780411190805651279968756886197477202014526722130046766004367135765764606855191540213956268843276496565862895418033302295837900995014106128988744889072852208236257176381045564937488165583137854125808921647337285250127042667739307167151943055077091438809186127766890413291430779570426024063567353653644850612089987800int);
    assert(a.2 * b.2 == 15249440470429607483538265053720183462320055003754348895114285554384896952144126185877426430382033650719497093932203581289781061166491980485390633158099441391795010986391792169258326882950328389964824989464082292941282114927068114132284249485699893022646432314943285624838573216123536696471469438100672894437184920064310241471845154106092012285700360467021112524841488812073953433431113216975677320536409751212319566000387883455283779788883626079724772206638856636160400int);
}
/// The cube of the generator's x.
proof fn lemma_generator_x_cubed()
    ensures
        fq3_mul(fq3_square(generator_x_value()), generator_x_value()) == (12608782493222002534479487493210608356393690906938220383118284958768943987403435987921245661851641643976703489530321597379590244567555598759415404881649132292861627709760924521733439503077513235495575733770263197872252904022973046604416int, 22233198999675429227353617144391335903582981116244912094126867153214324532102493286359134506165284202540344150997947812968231856834858090096373580750634403037646737278155610196457953802078951347685695247851706327997063390980792672321758int, 21728635550910783771951142050346808197003003247229662652981050832770903397446667924481218219140215634471595578308827051131652663227752759016884790926185641533750210806094269807116846867720987986346995324955675234427083431645181138677950int),
{
    lemma_generator_x_squared();
    let a: Fq3Value = (8460983549223203293255756411799426498776481174209356952314440827606037559199414602597644483997371161915498222330739699634591501674861194539248693997227526297150004986268014793501985742354733351632899534403046542767497765990954980409206int, 7324164587818795029788245912207482449258779378710883192789396529461163347895682999898292354707197742889833301609338536826732863382845531678341331868982752004244299991531278864999220404024661838469706147845701502491345883552786812383684int, 15487167868783448806555433399539141972644673836931051675713749088987032481649109072271984513037505188697019827437523463924510596577802347814639791360745622725584392335596344152191827214253227626453026270152540025671236535585678063056359int);
    let b: Fq3Value = (13426761183630949215425595811885033211332897733228446437546263564078445562454176776915160094418980045665397361295624472103734543457352048745726512354895954850428989867542989474136256025045975283415690491751906307188562464175510373683338int, 20471601555918880743198170952645906008198510944268658573129351735028343217532386920456705632337352161031960990613816401042894531220068552819818037605513359562118363589199569321421558696125646867661360498323171027455638052943806292028610int, 3905053196875761830053608605277158152930144841844497593936739534395003062685449846381431331169369910535935138116320442345524758217411779027270883193856999691582831339845600938304719916501940381093815781408183227875600753651697934495980int);
    assert(a.0 * b.0 == 113603605494050126712915409021894596264904604201311397368787297302370179340504133954131173041971480419684469828778915282368209107061570694684025292400927637851438772358734080170607713885582212775640195546519883301187338194578885208166429155038504342977694113101273327841020325262714904475879765675233403645649081455833429579393739015732296169120183145328222209872781037982753293081713965461468246502333682839644076079653044481153468750032308708669223298138632096704009628int);
    assert(a.0 * b.1 == 173209883990881782432193379257712157367988145593065678942169040821421074015738295591837018459339310434518011583133804032627575316641281264635367580786139694390846389884936104332424264426198925358453145936886775232970890917457483190788248095151456395163404580812707957431848962389343623403915629078845156248338459243127412230615262785347550055259311535893794900053676736014501281034552448234432960856935899082369483575735322027717735396749206394695821390658579513659383660int);
    assert(a.0 * b.2 == 33040590857607299774807305943205365787903778517475630709055765315411996259466580048894530234065878744187174055131054532516699044361189484159534635396765635829245790527267496430873193724762915371852498419717334152141833661671504253910267871164791135574553580042111754045553504962520103111468063095288004134493607059504266918389490993534141103612556998133072955514383387482763581989507295759043488482592356687098964927181583892074831323179418350907387128001875963761991880int);
    assert(a.1 * b.0 == 98339808790249767644126349984108996263629271170236893024744639239105259642453049114036210125797634064953376324488258757099015874948176589486769455696457213245778989729991145126486508397678740667631060384629354959506805471205188597708342130475753674288472676758818162080286643059526726267512811079480129483493252458309423119958756252441355838754026105423428646170997856319976377076506427974553545473243840828218845489435747405773049291034777508556660443511632754773857192int);
    assert(a.1 * b.1 == 149937379171797212189799986137109081854210095973954028990516563839259555329615483535102857354117081079730561705457725718334367971220458843650312130525589060464930629403067506579569598153044447334124688839866957083171449664384552393660242562867719024308830345545827977502773934069296691847779615772784080242910561761155330486214919675880894305348834019757200842753687182809745089627851546132867142525653545849276149439264417939013941519985539120956167734357708042025199240int);
    assert(a.1 * b.2 == 28601252338106031982985526794755341029400862575602653349070372007142976278250759417617357260879042674066700476364439915788226515308744310199574620953411565939335455207939624200031674604022832239708135697796549042988871941466088799671541595291535091002456182634281549064380458128811221008668275550672253289457571463356176957522824162504812364453488143308324193885261329425880209804579498811898234859940815153089803552418277172623438824107141836304912211455681314915590320int);
    assert(a.2 * b.0 == 207942504384958064284699582919077410476419584747514886046294174907473852898468395762172487607298946223870794480163503699398595458928975669539674192965471601093478549016284801206047767286781239302491900067257924185293953871294957257070890698901237605467007395809045398765575045915292018120477151949652971848801225898446059899818031009303618854130053587252545014941822397782642166256042501891612998032716113575673501298517066727745855139232863030868985967561164364713246342int);
    assert(a.2 * b.1 == 317047129839364146867845673331518436911678526646345040801994253501190025724512543495600301294787744762710410112741101001233177552908471373510865967263925169763253447668187265114893834872397293590574484790986178643880423969910466274908672948032973365385167723983572161404109958906113942682157113420423917907407243543992245511726856398497836712542592582249730019688804413512000216821375782869784701569104300351272570438548352545979981540982064501324519254738624194870430990int);
    assert(a.2 * b.2 == 60478214396544385869054919417714472216036808376938271983383914357296913101019632606100534604062164451540242398151354289975036240276910150079704376812370030913828076755060467207781919259236251536875993285008933444663779937150337806434300321522133038133252899843811558230596174884951138444869497023314787055047679260479718876102693990517759113078371363311389395507297263851124030210020823644804136134663335584637177597369988823323183415272722917146192441062491576998936820int);
}
/// The generator satisfies the curve equation over Fq3.
pub proof fn lemma_generator_on_curve()
    ensures
        satisfies_curve_equation(generator_x_value(), generator_y_value()),
{
    lemma_generator_y_squared();
    lemma_generator_x_squared();
    lemma_generator_x_cubed();
}

} // verus!
