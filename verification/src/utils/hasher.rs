//! The Rescue sponge over a state of `STATE_WIDTH` field elements.
//!
//! `digest` absorbs up to `STATE_RATE` elements in one call, applies
//! `NUM_ROUNDS` rounds and returns `DIGEST_SIZE` elements. Round `i` reads
//! its constants at position `i % CYCLE_LENGTH` of the cycle.

use crate::math::field::{elements, is_element, modulus, power, sum};
use crate::math::matrix::{
    column, dot, is_identity_product, lemma_transform_elements, lemma_transform_inverse, row,
    transform,
};
use sp_std::vec::Vec;
use vstd::prelude::*;

verus! {

/// Number of field elements in the state.
pub const STATE_WIDTH: usize = crate::HASH_STATE_WIDTH;

/// Number of field elements that one call absorbs at most.
pub const STATE_RATE: usize = crate::HASH_STATE_RATE;

/// Number of field elements in a digest.
pub const DIGEST_SIZE: usize = crate::HASH_DIGEST_SIZE;

/// Number of rounds.
pub const NUM_ROUNDS: usize = crate::HASH_NUM_ROUNDS;

/// Number of steps after which the round constants repeat.
pub const CYCLE_LENGTH: usize = crate::BASE_CYCLE_LENGTH;

/// Exponent of the S-box.
pub const ALPHA: u128 = 3;

/// Exponent of the inverse S-box: the inverse of `ALPHA` modulo `M - 1`.
pub const INV_ALPHA: u128 = 226854911280625642308916371969163307691;

/// The diffusion matrix, row by row.
pub const MDS: [u128; 36] = [
    34702391375697798808541201166389247321, 292720401120629668097050277338444166479, 252221686506898646925660607780980529565,
    1545301432720594930091500405440765270, 249229091188143033873076468277345141138, 220001593723324427188563221285612032538,
    223274184432289781839114239013770504955, 330042960751289206923775620692185805456, 68147806084648525660922442535124284349,
    170632587193822854126540173326689266153, 250033902372207462477717017592730125263, 241770281110130121239200125437407593586,
    59697037488579951129595490016876870776, 173037025415440639734730939871096987969, 244520331803890388707106378055030145592,
    34432552219210978837375640622811234255, 224883744083395074894597669527169800639, 118987613174044827738657284387435362389,
    178405816334148045547444196947551204988, 329492269239016599078865693624718656026, 5932101030068686798137276449370802175,
    82061764821777249869371835777715849101, 306668779179264388848571277248016578389, 111826390250505084847238806440816480816,
    311483585658925440282415980040674425324, 145759142525852648614462741190071048842, 298009719049064449565063658657087558281,
    20897600766797241015108657845791963643, 10708575082009935910638872278310543860, 1925891850054765549789187338759995098,
    215280917571128372543200644166029121446, 95409967251054914374823434415713274752, 47264968375673684314231886553980659586,
    324414896710549426218067045352609729751, 134533192639212680415562336758249126966, 113819576569856286031671903516923963713,
];

/// The inverse of the diffusion matrix, row by row.
pub const INV_MDS: [u128; 36] = [
    262838870629088612431704202279372804365, 222534852307924763539037405488664736598, 81646375972783381860153911140700582070,
    199701217011341155249764385939633347172, 332690827334260982039678112409792234722, 89516833564756742553232000561318423105,
    268971102785434627130755364883988908171, 281455956826013141038766773877631706708, 260031388727053904917456703760391819397,
    129628250235822118843226947626941528745, 4752366532746298637564749858084292362, 41511161206792419767881138471159674575,
    182137736677911549469583431255398613256, 81590632530312527113593374981163544706, 187388592404931394753634116375361630728,
    33930556286904149060086783748137598339, 128856701558652053153053295206366630120, 142358475095617426664163236851553505832,
    227338232821163582236298610629943480668, 331216968806018107216634963151792902695, 26461805327234621438733072541631103386,
    256026201749452500286052447974298083810, 225021687632788174205391941469031171903, 142987865655544874008196227497386450956,
    23528566895021558524617283665890082663, 236073665414937855350933025880234841420, 333046083413429707379387119916134573299,
    306789363216075136579531522242680359507, 28410362227208796996681096912722982356, 315464216130582396582421428659045349544,
    83197014978047724714246600214591095407, 26699280864421082988027855316107178960, 198532124113408992589453646783315962129,
    33447687267235554595784456310784250249, 230423441211289196836867098686067243907, 6651208139349692977552460975523401420,
];

/// The round constants: one row for each lane of each of the two half
/// rounds, one column for each step of the cycle.
pub const ARK: [[u128; 16]; 12] = [
    [
        73742662193393629993182617210984534396, 53265540956785335308970867946461681393, 14395595548581550072136442264588359269,
        122001776241989922016768881111033630021, 60517382118002481956993039132628798754, 242872884766759335785324964049644229294,
        4363347423120340347647334422662129280, 36224510031696203479366212612960872957, 48405253030503584410290697712994785780,
        81691558114273932307586556761543100315, 315851285839738308287329276161693313425, 326468515245013538774703881972225680443,
        43697512293048123577843997788308773455, 311182552853825261047305944842224924215, 23833044413239455428827669432473543240,
        7640791703119561504971867271087353186,
    ],
    [
        294241649061853322876594266104693176711, 37163237225742447359704121711857363416, 122453723578185362799857252115182955415,
        45955200056324872841369110391855073949, 118224404177203231307646344308524770691, 334905318181122708043147970432770442813,
        151456178618798089303785904835852898400, 158324780313294970656577210958221752332, 94987431711345870355583825474329298047,
        314293870425266938862923101612602484635, 153975056764703018977481562856167540343, 321383880935903155966493388921501530915,
        50057060110310193394516504439805601601, 101740347373933108709122003348416870840, 80845608757236703492016225128275757615,
        209519938465996994070512842713405349097,
    ],
    [
        158538539401072639862099558319550076686, 221096166077280180974764042888991644280, 58496669788416466040038464653643977917,
        59235259390239124162891762278360245334, 337725857612570850944445340416668827103, 232074846252364869196809445831737773796,
        50018412546799023168899671792323407156, 166545598284411242433605578379265360252, 41491163124497803255407972080635378902,
        302719082300742526890675313445319567341, 193135973972933518870828237886863798021, 230635877078223923040415038811686445073,
        138405289600908304802269329797084135857, 185089342855265166563915858025522983409, 43421407022492486112194101527865465264,
        62365388436267647533064120634464266870,
    ],
    [
        116358578177298194933445426886059838431, 161426242690584918941198733450953748769, 228752352631998151610775212885524543283,
        182846621472767704751329603405195985261, 61911644581679112386499312030413349074, 191090374127295994022314014407997806335,
        59079983632109588980783021622461415033, 193859304217638223479173371326185841274, 280938106646730498467301259432184740730,
        679464766810703810097965767355062873, 150345637803188209699415557320545415720, 139823638104054506965247243102295231737,
        53655583013674525883209345165753178194, 126806292806004264446745284405742612689, 9602891270757320013616862490986026227,
        160806286415414414379046661006476545066,
    ],
    [
        82429262549299942290847183493004485261, 135862987622353414661673448620033990934, 189653807408664613044858917026657980625,
        89333775516890774827962437297764936547, 151495710594170316099539790651453416361, 287288998844960276649854461883880913666,
        78065099645540746831460653583134588104, 55063854082489962294956447144901184837, 331958862978706756999748973740992156929,
        8168599451814692118441936734435571667, 166002344081927954304873771936867289851, 225556280578098393163620719229418290860,
        234470815157983004947611441850027217492, 188323096432976273265052369652285099186, 77086595049850596660690999278719011720,
        219177966622498447376602481443936826442,
    ],
    [
        153964862116746563988492365899737226989, 171502007855719014010389694111716628578, 69476260396969790693146402021744933499,
        154737674033120948700227987365296907637, 321756280164272289841871040803703440350, 131528659800906379821588177210148124019,
        80761083418432627134481526210881542477, 250524460337537482950569449224813700391, 230491494516843960542668710050516211970,
        45314269339319734203127091458645722622, 2780762044206215421580528389917005833, 165769058045453677221497711462583950139,
        259395388889719671782653113655841647262, 219135320838134930923443959673366229256, 286172465494565666647121151879345971089,
        147904845125332345734618546117273133070,
    ],
    [
        310538827479436149892724250590698914519, 158907965876520949616863328303176330572, 230609671293877243511889006223284127479,
        32424193637360906576442956294452323288, 250107916917535224528378129994943394294, 138628264101912804813977210615833233437,
        265168486075436613449458788630803272512, 69216162599706897556278776240900218374, 189445283838085809052254029811407633258,
        233141108584353453034002234415979233911, 214406010671246827947835794343033790693, 11153792801390339798262783617007369172,
        118114082982223329826045602989947510129, 263157893448998999306850171729945394432, 284751400376525550861233017183497639371,
        267697496976874759865163284761384997437,
    ],
    [
        93028746118909893246237533845189074002, 185875552438512768131393810027777987752, 185941035889835671403097747661105595079,
        253746202714926890236889780444552427226, 101396399019525872501663112616210307683, 215901816653704881294214215068798346060,
        201416315867789883891889554246377963162, 251801358233276697762579413801911171612, 192826288785653777157020265215517987662,
        15885268928012076989988458786521561031, 3463161311202689884181131747640413605, 79003969367131068546865741459306118251,
        69521903572951337445452502748565566496, 301962999029915705994021697766389081208, 9094956230559373758985913855137693312,
        144516981820451119929097195276243798745,
    ],
    [
        190338348930091047298074165559397264378, 274633988293091071340356635555807179190, 178527953570703982986577498890483203023,
        62033181748425106711292370817969454146, 300207915911051460908298688414919921093, 279904213525927510712810228623902377237,
        169061616865327291005064664270275836534, 109862755442048596627938134642975399668, 26236509279945457822369793146288866403,
        12234569840122312404615178877814773825, 170640173476284978302806154399958141555, 209040028248304238735923683513240525194,
        334227022756371766478760448625337379424, 25509259982013669682461356932775370545, 258001239441974384951891541079242930440,
        170024582242541755392979256646565617273,
    ],
    [
        179443458614881887600494128053111694648, 108165142884901978856319583750672324489, 97063282200318501142854934314343169049,
        261286087759526359216271155361018330507, 67833038363599207475373040930824843019, 56878992720628535103195481580617360771,
        198852036109370286966576164360266278255, 174521831193496100673067735908873646985, 251654188127562510403516067236333482372,
        48056343894932757577046683797067209079, 306942787541210815164178987028698818659, 156642260202818413362503062578539720517,
        251616653853928459967283575542057535293, 188741644029927191719040650968720800409, 281428110117091114144446350524650424481,
        64627937813848943279040280988334503406,
    ],
    [
        289278996656706117461857789813498821934, 274604860873273636237081114376077113475, 126000924558481152083098962591383883438,
        129877116445533126989528570413807277693, 172066229584406173063202914726937339958, 298530663250990395227144225232608384365,
        16989575615175240495557720305287640349, 102835474498154050313290986853294842906, 297928660776980173370496618733852490961,
        96037481352786813748421760769380383926, 2818165229115014774032882127170013258, 293027053537479076557105009345927645442,
        249369722351358137898587699909312963803, 300544292992993952360719000252205715076, 323117003802246814764810890058143344905,
        243579355010018669877160932197352017974,
    ],
    [
        339223760157195739332845857285008200423, 208632865147351209340449219082125897333, 96675618862527967726114378655626650641,
        162892536327655189685235410342890574896, 196910153233132861881308509456401645140, 281841826874183647567546019531929972702,
        155276073049009029667373106803046514344, 152642017050116048509158960350000858013, 286456894851095755022390967246767421000,
        215531716255970146473658338852472046173, 324452408864695917006896030536225525119, 314094406162389098987684450322979120529,
        114910730596486251472791631840513265074, 81795345404219176616297063519210464031, 22603524397731600512825466576357638930,
        63900149356112496372337283043133097338,
    ],
];

/// The state with the constants of cycle position `idx` added to its
/// lanes, from row `offset` of the table on. Positions past the width are
/// left alone.
pub open spec fn with_constants(state: Seq<int>, idx: int, offset: int) -> Seq<int> {
    Seq::new(
        state.len(),
        |i: int|
            if i < STATE_WIDTH {
                sum(state[i], ARK[offset + i][idx] as int)
            } else {
                state[i]
            },
    )
}

/// The state with every lane raised to `ALPHA`.
pub open spec fn sbox(state: Seq<int>) -> Seq<int> {
    Seq::new(
        state.len(),
        |i: int|
            if i < STATE_WIDTH {
                power(state[i], ALPHA as nat)
            } else {
                state[i]
            },
    )
}

/// The state with every lane raised to `INV_ALPHA`.
pub open spec fn inv_sbox(state: Seq<int>) -> Seq<int> {
    Seq::new(
        state.len(),
        |i: int|
            if i < STATE_WIDTH {
                power(state[i], INV_ALPHA as nat)
            } else {
                state[i]
            },
    )
}

/// The state multiplied by the diffusion matrix.
pub open spec fn mix(state: Seq<int>) -> Seq<int> {
    transform(elements(MDS@), state)
}

/// The state multiplied by the inverse of the diffusion matrix.
pub open spec fn unmix(state: Seq<int>) -> Seq<int> {
    transform(elements(INV_MDS@), state)
}

/// One round at `step`. Both halves add their constants first, then apply
/// their S-box, then the matrix: the first half the S-box, the second
/// its inverse.
pub open spec fn round(state: Seq<int>, step: int) -> Seq<int> {
    let idx = step % (CYCLE_LENGTH as int);
    let half = mix(sbox(with_constants(state, idx, 0)));
    mix(inv_sbox(with_constants(half, idx, STATE_WIDTH as int)))
}

/// The state after rounds `0` to `n - 1`.
pub open spec fn rounds(state: Seq<int>, n: nat) -> Seq<int>
    decreases n,
{
    if n == 0 {
        state
    } else {
        round(rounds(state, (n - 1) as nat), n - 1)
    }
}

/// The state that the rounds start from: the input in reverse order at
/// the end of the state, zeros before it.
pub open spec fn initial_state(values: Seq<int>) -> Seq<int> {
    Seq::new(
        STATE_WIDTH as nat,
        |i: int|
            if STATE_WIDTH - 1 - i < values.len() {
                values[STATE_WIDTH - 1 - i]
            } else {
                0
            },
    )
}

/// The digest of `values`: the last `DIGEST_SIZE` lanes of the final
/// state, last lane first.
pub open spec fn digest_of(values: Seq<int>) -> Seq<int> {
    let last = rounds(initial_state(values), NUM_ROUNDS as nat);
    Seq::new(DIGEST_SIZE as nat, |i: int| last[STATE_WIDTH - 1 - i])
}

/// Hashes up to `STATE_RATE` field elements into `DIGEST_SIZE` of them.
pub fn digest(values: &[u128]) -> (r: Vec<u128>)
    requires
        values.len() <= STATE_RATE,
    ensures
        r.len() == DIGEST_SIZE,
        elements(r@) == digest_of(elements(values@)),
        forall|i: int| 0 <= i < r.len() ==> r[i] < crate::math::field::M,
{
    let mut state: [u128; STATE_WIDTH] = [crate::math::field::ZERO; STATE_WIDTH];
    let mut k: usize = 0;
    while k < values.len()
        invariant
            k <= values.len() <= STATE_RATE,
            forall|j: int| 0 <= j < k ==> state[j] == values[j],
            forall|j: int| k <= j < STATE_WIDTH ==> state[j] == 0,
        decreases values.len() - k,
    {
        state[k] = values[k];
        k += 1;
    }
    reverse(&mut state);
    assert(elements(state@) =~= initial_state(elements(values@)));

    let ghost start = elements(state@);
    let mut i: usize = 0;
    while i < NUM_ROUNDS
        invariant
            i <= NUM_ROUNDS,
            elements(state@) == rounds(start, i as nat),
        decreases NUM_ROUNDS - i,
    {
        apply_round(&mut state, i);
        i += 1;
    }

    let ghost last = state@;
    proof {
        lemma_round_elements(rounds(start, (NUM_ROUNDS - 1) as nat), NUM_ROUNDS - 1);
        assert forall|j: int| 0 <= j < STATE_WIDTH implies last[j] < crate::math::field::M by {
            assert(elements(last)[j] == rounds(start, NUM_ROUNDS as nat)[j]);
        }
    }
    reverse(&mut state);
    assert forall|j: int| 0 <= j < STATE_WIDTH implies state[j] < crate::math::field::M by {
        assert(state[j] == last[STATE_WIDTH - 1 - j]);
    }
    let mut r: Vec<u128> = Vec::with_capacity(DIGEST_SIZE);
    let mut d: usize = 0;
    while d < DIGEST_SIZE
        invariant
            d <= DIGEST_SIZE,
            r.len() == d,
            forall|j: int| 0 <= j < d ==> r[j] == state[j],
            forall|j: int| 0 <= j < STATE_WIDTH ==> state[j] < crate::math::field::M,
        decreases DIGEST_SIZE - d,
    {
        r.push(state[d]);
        d += 1;
    }
    assert(elements(r@) =~= digest_of(elements(values@)));
    r
}

/// Reverses the order of the elements.
fn reverse(state: &mut [u128])
    ensures
        final(state)@ == old(state)@.reverse(),
{
    let ghost before = state@;
    let n: usize = state.len();
    let mut i: usize = 0;
    while i < n / 2
        invariant
            n == state.len() == before.len(),
            i <= n / 2,
            forall|k: int| 0 <= k < i ==> #[trigger] state[k] == before[n - 1 - k],
            forall|k: int| n - i <= k < n ==> #[trigger] state[k] == before[n - 1 - k],
            forall|k: int| i <= k < n - i ==> state[k] == before[k],
        decreases n / 2 - i,
    {
        let low: u128 = state[i];
        state[i] = state[n - 1 - i];
        state[n - 1 - i] = low;
        i += 1;
    }
    assert(state@ =~= before.reverse());
}

/// Applies the round at `step` to the state.
pub fn apply_round(state: &mut [u128], step: usize)
    requires
        old(state).len() == STATE_WIDTH,
    ensures
        final(state).len() == STATE_WIDTH,
        elements(final(state)@) == round(elements(old(state)@), step as int),
{
    let ark_idx: usize = step % CYCLE_LENGTH;

    add_constants(state, ark_idx, 0);
    apply_sbox(state);
    apply_mds(state);

    add_constants(state, ark_idx, STATE_WIDTH);
    apply_inv_sbox(state);
    apply_mds(state);
}

/// Adds the constants of cycle position `idx` to the lanes of the state,
/// reading the table from row `offset` on.
pub fn add_constants(state: &mut [u128], idx: usize, offset: usize)
    requires
        old(state).len() >= STATE_WIDTH,
        idx < CYCLE_LENGTH,
        offset <= STATE_WIDTH,
    ensures
        final(state).len() == old(state).len(),
        elements(final(state)@) == with_constants(
            elements(old(state)@),
            idx as int,
            offset as int,
        ),
{
    let ghost before = elements(state@);
    let mut i: usize = 0;
    while i < STATE_WIDTH
        invariant
            i <= STATE_WIDTH <= state.len(),
            state.len() == before.len(),
            idx < CYCLE_LENGTH,
            offset <= STATE_WIDTH,
            forall|k: int|
                0 <= k < i ==> state[k] as int == sum(before[k], ARK[offset + k][idx as int] as int),
            forall|k: int| i <= k < state.len() ==> state[k] as int == before[k],
        decreases STATE_WIDTH - i,
    {
        state[i] = crate::math::field::add(state[i], ARK[offset + i][idx]);
        i += 1;
    }
    assert(elements(state@) =~= with_constants(before, idx as int, offset as int));
}

/// Raises every lane of the state to `ALPHA`.
pub fn apply_sbox(state: &mut [u128])
    requires
        old(state).len() >= STATE_WIDTH,
    ensures
        final(state).len() == old(state).len(),
        elements(final(state)@) == sbox(elements(old(state)@)),
{
    let ghost before = elements(state@);
    let mut i: usize = 0;
    while i < STATE_WIDTH
        invariant
            i <= STATE_WIDTH <= state.len(),
            state.len() == before.len(),
            forall|k: int| 0 <= k < i ==> state[k] as int == power(before[k], ALPHA as nat),
            forall|k: int| i <= k < state.len() ==> state[k] as int == before[k],
        decreases STATE_WIDTH - i,
    {
        state[i] = crate::math::field::exp(state[i], ALPHA);
        i += 1;
    }
    assert(elements(state@) =~= sbox(before));
}

/// Raises every lane of the state to `INV_ALPHA`.
pub fn apply_inv_sbox(state: &mut [u128])
    requires
        old(state).len() >= STATE_WIDTH,
    ensures
        final(state).len() == old(state).len(),
        elements(final(state)@) == inv_sbox(elements(old(state)@)),
{
    let ghost before = elements(state@);
    let mut i: usize = 0;
    while i < STATE_WIDTH
        invariant
            i <= STATE_WIDTH <= state.len(),
            state.len() == before.len(),
            forall|k: int| 0 <= k < i ==> state[k] as int == power(before[k], INV_ALPHA as nat),
            forall|k: int| i <= k < state.len() ==> state[k] as int == before[k],
        decreases STATE_WIDTH - i,
    {
        state[i] = crate::math::field::exp(state[i], INV_ALPHA);
        i += 1;
    }
    assert(elements(state@) =~= inv_sbox(before));
}

/// Multiplies the state by the diffusion matrix.
pub fn apply_mds(state: &mut [u128])
    requires
        old(state).len() == STATE_WIDTH,
    ensures
        final(state).len() == STATE_WIDTH,
        elements(final(state)@) == mix(elements(old(state)@)),
{
    crate::math::matrix::apply(&MDS, state);
}

/// Multiplies the state by the inverse of the diffusion matrix.
pub fn apply_inv_mds(state: &mut [u128])
    requires
        old(state).len() == STATE_WIDTH,
    ensures
        final(state).len() == STATE_WIDTH,
        elements(final(state)@) == unmix(elements(old(state)@)),
{
    crate::math::matrix::apply(&INV_MDS, state);
}

/// The exponent of the inverse S-box inverts that of the S-box: their
/// product is one modulo the order of the multiplicative group.
pub proof fn lemma_inverse_exponent()
    ensures
        (ALPHA * INV_ALPHA) % (crate::math::field::M - 1) == 1,
{
    let order = crate::math::field::M - 1;
    assert(ALPHA * INV_ALPHA == 2 * order + 1);
    vstd::arithmetic::div_mod::lemma_fundamental_div_mod_converse_mod(
        ALPHA * INV_ALPHA,
        order,
        2,
        1,
    );
}

/// Every round reads its constants inside the table: the position in the
/// cycle is below the length of a row, and both half rounds find a row for
/// each lane.
pub proof fn lemma_constants_in_bounds(step: int, lane: int)
    requires
        0 <= step,
        0 <= lane < STATE_WIDTH,
    ensures
        0 <= step % (CYCLE_LENGTH as int) < ARK@[lane]@.len(),
        0 <= step % (CYCLE_LENGTH as int) < ARK@[STATE_WIDTH + lane]@.len(),
        STATE_WIDTH + lane < ARK@.len(),
        STATE_WIDTH * STATE_WIDTH == MDS@.len() == INV_MDS@.len(),
{
}

/// The diffusion matrix times its declared inverse is the identity matrix
/// of the field, and so is the inverse times the matrix.
pub proof fn lemma_mds_inverse()
    ensures
        is_identity_product(elements(MDS@), elements(INV_MDS@), STATE_WIDTH as nat),
        is_identity_product(elements(INV_MDS@), elements(MDS@), STATE_WIDTH as nat),
{
    lemma_entries();
    lemma_entries_reversed();
    lemma_entries_from(MDS, INV_MDS);
    lemma_entries_from(INV_MDS, MDS);
}

/// On a state of field elements the inverse matrix undoes the diffusion
/// matrix, and the diffusion matrix undoes its inverse.
pub proof fn lemma_unmix_mix(state: Seq<int>)
    requires
        state.len() == STATE_WIDTH,
        forall|k: int| 0 <= k < state.len() ==> is_element(#[trigger] state[k]),
    ensures
        unmix(mix(state)) == state,
        mix(unmix(state)) == state,
{
    lemma_mds_inverse();
    lemma_transform_inverse(elements(INV_MDS@), elements(MDS@), state);
    lemma_transform_inverse(elements(MDS@), elements(INV_MDS@), state);
}

/// A round leaves a field element in every lane, whatever it started from.
pub proof fn lemma_round_elements(state: Seq<int>, step: int)
    requires
        state.len() == STATE_WIDTH,
    ensures
        round(state, step).len() == STATE_WIDTH,
        forall|i: int| 0 <= i < STATE_WIDTH ==> is_element(#[trigger] round(state, step)[i]),
{
    let idx = step % (CYCLE_LENGTH as int);
    let half = mix(sbox(with_constants(state, idx, 0)));
    lemma_transform_elements(elements(MDS@), sbox(with_constants(state, idx, 0)));
    lemma_transform_elements(
        elements(MDS@),
        inv_sbox(with_constants(half, idx, STATE_WIDTH as int)),
    );
}

/// Entry `(i, j)` of the product of two six by six matrices, before
/// reduction.
spec fn entry(a: [u128; 36], b: [u128; 36], i: int, j: int) -> int {
    a[6 * i] * b[j] + a[6 * i + 1] * b[6 + j] + a[6 * i + 2] * b[12 + j] + a[6 * i + 3] * b[18
        + j] + a[6 * i + 4] * b[24 + j] + a[6 * i + 5] * b[30 + j]
}

/// Whether the entries of the product of `a` and `b` are those of the
/// identity matrix.
spec fn has_identity_entries(a: [u128; 36], b: [u128; 36]) -> bool {
    forall|i: int, j: int|
        0 <= i < 6 && 0 <= j < 6 ==> #[trigger] entry(a, b, i, j) % modulus() == if i == j {
            1int
        } else {
            0int
        }
}

/// The entries of the matrix times its inverse, evaluated one by one.
#[verifier::spinoff_prover]
proof fn lemma_entries()
    ensures
        has_identity_entries(MDS, INV_MDS),
{
    assert(entry(MDS, INV_MDS, 0, 0) % modulus() == 1);
    assert(entry(MDS, INV_MDS, 0, 1) % modulus() == 0);
    assert(entry(MDS, INV_MDS, 0, 2) % modulus() == 0);
    assert(entry(MDS, INV_MDS, 0, 3) % modulus() == 0);
    assert(entry(MDS, INV_MDS, 0, 4) % modulus() == 0);
    assert(entry(MDS, INV_MDS, 0, 5) % modulus() == 0);
    assert(entry(MDS, INV_MDS, 1, 0) % modulus() == 0);
    assert(entry(MDS, INV_MDS, 1, 1) % modulus() == 1);
    assert(entry(MDS, INV_MDS, 1, 2) % modulus() == 0);
    assert(entry(MDS, INV_MDS, 1, 3) % modulus() == 0);
    assert(entry(MDS, INV_MDS, 1, 4) % modulus() == 0);
    assert(entry(MDS, INV_MDS, 1, 5) % modulus() == 0);
    assert(entry(MDS, INV_MDS, 2, 0) % modulus() == 0);
    assert(entry(MDS, INV_MDS, 2, 1) % modulus() == 0);
    assert(entry(MDS, INV_MDS, 2, 2) % modulus() == 1);
    assert(entry(MDS, INV_MDS, 2, 3) % modulus() == 0);
    assert(entry(MDS, INV_MDS, 2, 4) % modulus() == 0);
    assert(entry(MDS, INV_MDS, 2, 5) % modulus() == 0);
    assert(entry(MDS, INV_MDS, 3, 0) % modulus() == 0);
    assert(entry(MDS, INV_MDS, 3, 1) % modulus() == 0);
    assert(entry(MDS, INV_MDS, 3, 2) % modulus() == 0);
    assert(entry(MDS, INV_MDS, 3, 3) % modulus() == 1);
    assert(entry(MDS, INV_MDS, 3, 4) % modulus() == 0);
    assert(entry(MDS, INV_MDS, 3, 5) % modulus() == 0);
    assert(entry(MDS, INV_MDS, 4, 0) % modulus() == 0);
    assert(entry(MDS, INV_MDS, 4, 1) % modulus() == 0);
    assert(entry(MDS, INV_MDS, 4, 2) % modulus() == 0);
    assert(entry(MDS, INV_MDS, 4, 3) % modulus() == 0);
    assert(entry(MDS, INV_MDS, 4, 4) % modulus() == 1);
    assert(entry(MDS, INV_MDS, 4, 5) % modulus() == 0);
    assert(entry(MDS, INV_MDS, 5, 0) % modulus() == 0);
    assert(entry(MDS, INV_MDS, 5, 1) % modulus() == 0);
    assert(entry(MDS, INV_MDS, 5, 2) % modulus() == 0);
    assert(entry(MDS, INV_MDS, 5, 3) % modulus() == 0);
    assert(entry(MDS, INV_MDS, 5, 4) % modulus() == 0);
    assert(entry(MDS, INV_MDS, 5, 5) % modulus() == 1);
}

/// The entries of the inverse times the matrix, evaluated one by one.
#[verifier::spinoff_prover]
proof fn lemma_entries_reversed()
    ensures
        has_identity_entries(INV_MDS, MDS),
{
    assert(entry(INV_MDS, MDS, 0, 0) % modulus() == 1);
    assert(entry(INV_MDS, MDS, 0, 1) % modulus() == 0);
    assert(entry(INV_MDS, MDS, 0, 2) % modulus() == 0);
    assert(entry(INV_MDS, MDS, 0, 3) % modulus() == 0);
    assert(entry(INV_MDS, MDS, 0, 4) % modulus() == 0);
    assert(entry(INV_MDS, MDS, 0, 5) % modulus() == 0);
    assert(entry(INV_MDS, MDS, 1, 0) % modulus() == 0);
    assert(entry(INV_MDS, MDS, 1, 1) % modulus() == 1);
    assert(entry(INV_MDS, MDS, 1, 2) % modulus() == 0);
    assert(entry(INV_MDS, MDS, 1, 3) % modulus() == 0);
    assert(entry(INV_MDS, MDS, 1, 4) % modulus() == 0);
    assert(entry(INV_MDS, MDS, 1, 5) % modulus() == 0);
    assert(entry(INV_MDS, MDS, 2, 0) % modulus() == 0);
    assert(entry(INV_MDS, MDS, 2, 1) % modulus() == 0);
    assert(entry(INV_MDS, MDS, 2, 2) % modulus() == 1);
    assert(entry(INV_MDS, MDS, 2, 3) % modulus() == 0);
    assert(entry(INV_MDS, MDS, 2, 4) % modulus() == 0);
    assert(entry(INV_MDS, MDS, 2, 5) % modulus() == 0);
    assert(entry(INV_MDS, MDS, 3, 0) % modulus() == 0);
    assert(entry(INV_MDS, MDS, 3, 1) % modulus() == 0);
    assert(entry(INV_MDS, MDS, 3, 2) % modulus() == 0);
    assert(entry(INV_MDS, MDS, 3, 3) % modulus() == 1);
    assert(entry(INV_MDS, MDS, 3, 4) % modulus() == 0);
    assert(entry(INV_MDS, MDS, 3, 5) % modulus() == 0);
    assert(entry(INV_MDS, MDS, 4, 0) % modulus() == 0);
    assert(entry(INV_MDS, MDS, 4, 1) % modulus() == 0);
    assert(entry(INV_MDS, MDS, 4, 2) % modulus() == 0);
    assert(entry(INV_MDS, MDS, 4, 3) % modulus() == 0);
    assert(entry(INV_MDS, MDS, 4, 4) % modulus() == 1);
    assert(entry(INV_MDS, MDS, 4, 5) % modulus() == 0);
    assert(entry(INV_MDS, MDS, 5, 0) % modulus() == 0);
    assert(entry(INV_MDS, MDS, 5, 1) % modulus() == 0);
    assert(entry(INV_MDS, MDS, 5, 2) % modulus() == 0);
    assert(entry(INV_MDS, MDS, 5, 3) % modulus() == 0);
    assert(entry(INV_MDS, MDS, 5, 4) % modulus() == 0);
    assert(entry(INV_MDS, MDS, 5, 5) % modulus() == 1);
}

/// Identity entries make an identity product.
proof fn lemma_entries_from(a: [u128; 36], b: [u128; 36])
    requires
        has_identity_entries(a, b),
    ensures
        is_identity_product(elements(a@), elements(b@), 6),
{
    let x = elements(a@);
    let y = elements(b@);
    assert forall|i: int, j: int| 0 <= i < 6 && 0 <= j < 6 implies #[trigger] dot(
        row(x, 6, i),
        column(y, 6, j),
        6,
    ) % modulus() == if i == j {
        1int
    } else {
        0int
    } by {
        reveal_with_fuel(dot, 7);
        assert(dot(row(x, 6, i), column(y, 6, j), 6) == entry(a, b, i, j));
    }
}

} // verus!
