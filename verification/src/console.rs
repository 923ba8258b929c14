//! The console filterbank: six fixed-topology nonlinear FIR colorations.
//!
//! Each mode owns a tap line of past driven samples. A step shifts the line
//! by one, inserting the driven input at the front, and accumulates the input
//! plus a weighted sum over the other taps, where each weight depends mildly
//! on the magnitude of its tap — an emulation of analog console circuitry.
//! The per-tap weights are fixed empirical constants; each table below folds
//! the add/subtract sign of its term into the signs of the stored pair, so a
//! tap always contributes `tap * (base + magnitude * |tap|)`.
//!
//! The result then optionally passes through one function of the saturation
//! library, chosen by a separate selector; no saturation is the default.

use crate::fixed::{
    fp_abs, fp_abs_s, fp_add, fp_add_s, fp_div, fp_div_s, fp_mul, fp_mul_s, fp_neg, fp_neg_s,
    fp_sub, fp_sub_s, FP_ONE,
};
use crate::math::{fp_cos, fp_cos_s, FP_TWO_PI};
use crate::saturation::{
    add_x_harmonics, add_x_harmonics_s, candle_saturation, candle_saturation_s, chebyshev_tape,
    chebyshev_tape_s, digital_saturation, digital_saturation_s, golden_cubic, golden_cubic_s,
    leaf_saturation, leaf_saturation_s, odd_saturation_with_threshold,
    odd_saturation_with_threshold_s, tape_saturation, tape_saturation_s, transformer_saturation,
    transformer_saturation_s, FP_TWO,
};
use vstd::prelude::*;

verus! {

/// The console modes: bypass and six named colorations.
#[derive(Clone, Copy, PartialEq, Eq, Structural, Debug)]
pub enum ConsoleMode {
    BYPASS,
    NEVE,
    API,
    PRECISION,
    LEAF,
    VINE,
    DURO,
}

/// The saturation stage selectors.
#[derive(Clone, Copy, PartialEq, Eq, Structural, Debug)]
pub enum SaturationModeEnum {
    NONESAT,
    TAPESAT,
    CANDLE,
    CHEBYSHEV,
    LEAF,
    DIGITAL,
    GOLDENCUBIC,
    TRANSFORMER,
    ODDHARMONICS,
    FORTHHARM,
}

/// Substitute for a zero drive before a console step, so the tap line keeps
/// moving.
pub const FP_DRIVE_MICRO: i64 = 1_000_000;

/// One tap's contribution: the tap value times its magnitude-dependent
/// weight.
pub open spec fn tap_term_s(v: i64, base: i64, mag: i64) -> i64 {
    fp_mul_s(v, fp_add_s(base, fp_mul_s(mag, fp_abs_s(v))))
}

fn tap_term(v: i64, base: i64, mag: i64) -> (r: i64)
    ensures
        r == tap_term_s(v, base, mag),
{
    fp_mul(v, fp_add(base, fp_mul(mag, fp_abs(v))))
}

/// A tap line shifted by one: the driven sample in front, the oldest tap
/// dropped.
pub open spec fn fir_shift_s(line: Seq<i64>, sample: i64, drive: i64) -> Seq<i64> {
    seq![fp_mul_s(sample, drive)] + line.drop_last()
}

/// The input plus the weighted contributions of taps one through `n`.
pub open spec fn fir_sum_s(line: Seq<i64>, coeffs: Seq<(i64, i64)>, sample: i64, n: nat) -> i64
    decreases n,
{
    if n == 0 {
        sample
    } else {
        let prev = fir_sum_s(line, coeffs, sample, (n - 1) as nat);
        fp_add_s(prev, tap_term_s(line[n as int], coeffs[n - 1].0, coeffs[n - 1].1))
    }
}

/// One console step over a tap line: the shifted line and the accumulated
/// output.
pub open spec fn console_fir_s(line: Seq<i64>, coeffs: Seq<(i64, i64)>, sample: i64, drive: i64) -> (
    Seq<i64>,
    i64,
) {
    let shifted = fir_shift_s(line, sample, drive);
    (shifted, fir_sum_s(shifted, coeffs, sample, coeffs.len()))
}

fn console_fir(line: &mut Vec<i64>, coeffs: &Vec<(i64, i64)>, sample: i64, drive: i64) -> (out:
    i64)
    requires
        old(line)@.len() == coeffs@.len() + 1,
    ensures
        final(line)@ == console_fir_s(old(line)@, coeffs@, sample, drive).0,
        out == console_fir_s(old(line)@, coeffs@, sample, drive).1,
{
    let ghost orig = line@;
    let driven = fp_mul(sample, drive);
    line.insert(0, driven);
    let _ = line.pop();
    proof {
        assert(line@ =~= fir_shift_s(orig, sample, drive));
    }
    let mut acc = sample;
    let mut i: usize = 1;
    while i < line.len()
        invariant
            line@ == fir_shift_s(orig, sample, drive),
            line@.len() == coeffs@.len() + 1,
            1 <= i <= line@.len(),
            acc == fir_sum_s(line@, coeffs@, sample, (i - 1) as nat),
        decreases line@.len() - i,
    {
        let v = line[i];
        let c = coeffs[i - 1];
        acc = fp_add(acc, tap_term(v, c.0, c.1));
        i = i + 1;
    }
    acc
}

/// The tap table of the Duro coloration.
pub open spec fn duro_coeffs_s() -> Seq<(i64, i64)> {
    seq![
        (124630000000i64, 908200000i64),
        (-246310000000i64, -789200000i64),
        (463120000000i64, -498400000i64),
        (631240000000i64, 883300000i64),
        (-312460000000i64, -706100000i64),
        (431210000000i64, -360500000i64),
        (-312140000000i64, -805600000i64),
        (121430000000i64, 611700000i64),
        (-214310000000i64, -577500000i64),
        (143120000000i64, 223700000i64),
        (-122570000000i64, -542200000i64),
    ]
}

fn duro_coeffs() -> (r: Vec<(i64, i64)>)
    ensures
        r@ == duro_coeffs_s(),
{
    let r: Vec<(i64, i64)> = vec![
        (124630000000i64, 908200000i64),
        (-246310000000i64, -789200000i64),
        (463120000000i64, -498400000i64),
        (631240000000i64, 883300000i64),
        (-312460000000i64, -706100000i64),
        (431210000000i64, -360500000i64),
        (-312140000000i64, -805600000i64),
        (121430000000i64, 611700000i64),
        (-214310000000i64, -577500000i64),
        (143120000000i64, 223700000i64),
        (-122570000000i64, -542200000i64),
    ];
    proof {
        assert(r@ =~= duro_coeffs_s());
    }
    r
}

/// The tap table of the Leaf coloration.
pub open spec fn leaf_coeffs_s() -> Seq<(i64, i64)> {
    seq![
        (206410000000i64, -789500000i64),
        (-340720000000i64, -403400000i64),
        (433020000000i64, -354800000i64),
        (140970000000i64, -340900000i64),
        (-6580000000i64, -332800000i64),
        (588750000000i64, -315500000i64),
        (-281830000000i64, -304500000i64),
        (5550000000i64, -304400000i64),
        (-24370000000i64, -303100000i64),
        (4010000000i64, -302900000i64),
        (-17810000000i64, -467900000i64),
        (38840000000i64, -353900000i64),
        (2210000000i64, 883900000i64),
        (4510000000i64, -974900000i64),
        (35010000000i64, -312200000i64),
        (65680000000i64, -225700000i64),
        (53550000000i64, -911200000i64),
        (5220000000i64, -191100000i64),
        (35690000000i64, -194500000i64),
    ]
}

fn leaf_coeffs() -> (r: Vec<(i64, i64)>)
    ensures
        r@ == leaf_coeffs_s(),
{
    let r: Vec<(i64, i64)> = vec![
        (206410000000i64, -789500000i64),
        (-340720000000i64, -403400000i64),
        (433020000000i64, -354800000i64),
        (140970000000i64, -340900000i64),
        (-6580000000i64, -332800000i64),
        (588750000000i64, -315500000i64),
        (-281830000000i64, -304500000i64),
        (5550000000i64, -304400000i64),
        (-24370000000i64, -303100000i64),
        (4010000000i64, -302900000i64),
        (-17810000000i64, -467900000i64),
        (38840000000i64, -353900000i64),
        (2210000000i64, 883900000i64),
        (4510000000i64, -974900000i64),
        (35010000000i64, -312200000i64),
        (65680000000i64, -225700000i64),
        (53550000000i64, -911200000i64),
        (5220000000i64, -191100000i64),
        (35690000000i64, -194500000i64),
    ];
    proof {
        assert(r@ =~= leaf_coeffs_s());
    }
    r
}

/// The tap table of the Vine coloration.
pub open spec fn vine_coeffs_s() -> Seq<(i64, i64)> {
    seq![
        (43632589399i64, -575411073i64),
        (-39866434444i64, -401805174i64),
        (42399585114i64, -397649382i64),
        (51014049858i64, -353184195i64),
        (-76934257676i64, -291725137i64),
        (40100700856i64, -215534790i64),
        (-37321791526i64, -270605983i64),
        (28753203390i64, -346928125i64),
        (-34232384198i64, -481560773i64),
        (32479762417i64, -259173732i64),
        (-44482463125i64, -476415778i64),
        (23830139415i64, -361592577i64),
        (23270191979i64, 352466712i64),
        (37505555382i64, -326762074i64),
        (23706978510i64, -251524845i64),
        (44852993685i64, -257515410i64),
        (35561656639i64, -249453765i64),
        (24877225255i64, -323542566i64),
        (21245644651i64, -232976462i64),
        (17252354114i64, -399899366i64),
    ]
}

fn vine_coeffs() -> (r: Vec<(i64, i64)>)
    ensures
        r@ == vine_coeffs_s(),
{
    let r: Vec<(i64, i64)> = vec![
        (43632589399i64, -575411073i64),
        (-39866434444i64, -401805174i64),
        (42399585114i64, -397649382i64),
        (51014049858i64, -353184195i64),
        (-76934257676i64, -291725137i64),
        (40100700856i64, -215534790i64),
        (-37321791526i64, -270605983i64),
        (28753203390i64, -346928125i64),
        (-34232384198i64, -481560773i64),
        (32479762417i64, -259173732i64),
        (-44482463125i64, -476415778i64),
        (23830139415i64, -361592577i64),
        (23270191979i64, 352466712i64),
        (37505555382i64, -326762074i64),
        (23706978510i64, -251524845i64),
        (44852993685i64, -257515410i64),
        (35561656639i64, -249453765i64),
        (24877225255i64, -323542566i64),
        (21245644651i64, -232976462i64),
        (17252354114i64, -399899366i64),
    ];
    proof {
        assert(r@ =~= vine_coeffs_s());
    }
    r
}

/// The tap table of the Neve-inspired coloration.
pub open spec fn neve_coeffs_s() -> Seq<(i64, i64)> {
    seq![
        (206416026932i64, -789521854i64),
        (-76018167025i64, -227863342i64),
        (39297655600i64, -545179932i64),
        (2983331577i64, -330837565i64),
        (-7240062823i64, -454836835i64),
        (30731089635i64, -381900605i64),
        (-23324346925i64, -403472887i64),
        (37926068691i64, -396736873i64),
        (-24370593767i64, -372212105i64),
        (34167643120i64, -403148508i64),
        (-17616698681i64, -359894843i64),
        (25382377535i64, -401491191i64),
        (-7707373407i64, -354621187i64),
        (15807062285i64, -375631413i64),
        (551192400i64, -354092993i64),
        (8185521434i64, -365076610i64),
        (6618427035i64, -345505286i64),
        (3624474763i64, -355530128i64),
        (9570980272i64, -340916910i64),
        (1936217740i64, -345545291i64),
        (10054330274i64, -338782232i64),
        (2217124288i64, -334814101i64),
        (9112556392i64, -332634252i64),
        (3396671690i64, -326344280i64),
        (7740969482i64, -325998688i64),
        (4639076268i64, -321319932i64),
        (6582229973i64, -320149774i64),
        (5503470799i64, -315571533i64),
        (5887549814i64, -320413072i64),
        (5902938984i64, -304578574i64),
        (5589520104i64, -304480535i64),
        (5981835576i64, -307150643i64),
        (5552239297i64, -303193679i64),
    ]
}

fn neve_coeffs() -> (r: Vec<(i64, i64)>)
    ensures
        r@ == neve_coeffs_s(),
{
    let r: Vec<(i64, i64)> = vec![
        (206416026932i64, -789521854i64),
        (-76018167025i64, -227863342i64),
        (39297655600i64, -545179932i64),
        (2983331577i64, -330837565i64),
        (-7240062823i64, -454836835i64),
        (30731089635i64, -381900605i64),
        (-23324346925i64, -403472887i64),
        (37926068691i64, -396736873i64),
        (-24370593767i64, -372212105i64),
        (34167643120i64, -403148508i64),
        (-17616698681i64, -359894843i64),
        (25382377535i64, -401491191i64),
        (-7707373407i64, -354621187i64),
        (15807062285i64, -375631413i64),
        (551192400i64, -354092993i64),
        (8185521434i64, -365076610i64),
        (6618427035i64, -345505286i64),
        (3624474763i64, -355530128i64),
        (9570980272i64, -340916910i64),
        (1936217740i64, -345545291i64),
        (10054330274i64, -338782232i64),
        (2217124288i64, -334814101i64),
        (9112556392i64, -332634252i64),
        (3396671690i64, -326344280i64),
        (7740969482i64, -325998688i64),
        (4639076268i64, -321319932i64),
        (6582229973i64, -320149774i64),
        (5503470799i64, -315571533i64),
        (5887549814i64, -320413072i64),
        (5902938984i64, -304578574i64),
        (5589520104i64, -304480535i64),
        (5981835576i64, -307150643i64),
        (5552239297i64, -303193679i64),
    ];
    proof {
        assert(r@ =~= neve_coeffs_s());
    }
    r
}

/// The tap table of the API-inspired coloration.
pub open spec fn api_coeffs_s() -> Seq<(i64, i64)> {
    seq![
        (92998706085i64, -95823624i64),
        (-119478477107i64, 45008916i64),
        (90716062648i64, 56394990i64),
        (-85619827708i64, 49648556i64),
        (64405492208i64, 24280521i64),
        (-59879918128i64, -1018671i64),
        (39802331358i64, 33124300i64),
        (-36484026309i64, 21161864i64),
        (18268608695i64, 31151100i64),
        (-17239686225i64, 24506341i64),
        (1875888123i64, 28382062i64),
        (-3817964240i64, 31558155i64),
        (-8520922145i64, 17026512i64),
        (3155602923i64, 25478617i64),
        (-12586309145i64, 45553192i64),
        (5364356490i64, 18123937i64),
        (-12729756582i64, 41037753i64),
        (4038189752i64, 37646155i64),
        (-10426173669i64, 36052104i64),
        (1265995834i64, 43054587i64),
        (-7478762077i64, 37312070i64),
        (-1498736892i64, 50866018i64),
        (-5032213095i64, 36360868i64),
        (-3429982247i64, 41030912i64),
        (-3555859779i64, 36989821i64),
        (-4372017929i64, 27202357i64),
        (-2992178745i64, 44469547i64),
        (-4579246525i64, 38590658i64),
        (-2981829349i64, 20647109i64),
        (-4388384415i64, 52230084i64),
        (-3239842188i64, 33979875i64),
        (-4076939813i64, 39357724i64),
        (-3504353485i64, 55254639i64),
    ]
}

fn api_coeffs() -> (r: Vec<(i64, i64)>)
    ensures
        r@ == api_coeffs_s(),
{
    let r: Vec<(i64, i64)> = vec![
        (92998706085i64, -95823624i64),
        (-119478477107i64, 45008916i64),
        (90716062648i64, 56394990i64),
        (-85619827708i64, 49648556i64),
        (64405492208i64, 24280521i64),
        (-59879918128i64, -1018671i64),
        (39802331358i64, 33124300i64),
        (-36484026309i64, 21161864i64),
        (18268608695i64, 31151100i64),
        (-17239686225i64, 24506341i64),
        (1875888123i64, 28382062i64),
        (-3817964240i64, 31558155i64),
        (-8520922145i64, 17026512i64),
        (3155602923i64, 25478617i64),
        (-12586309145i64, 45553192i64),
        (5364356490i64, 18123937i64),
        (-12729756582i64, 41037753i64),
        (4038189752i64, 37646155i64),
        (-10426173669i64, 36052104i64),
        (1265995834i64, 43054587i64),
        (-7478762077i64, 37312070i64),
        (-1498736892i64, 50866018i64),
        (-5032213095i64, 36360868i64),
        (-3429982247i64, 41030912i64),
        (-3555859779i64, 36989821i64),
        (-4372017929i64, 27202357i64),
        (-2992178745i64, 44469547i64),
        (-4579246525i64, 38590658i64),
        (-2981829349i64, 20647109i64),
        (-4388384415i64, 52230084i64),
        (-3239842188i64, 33979875i64),
        (-4076939813i64, 39357724i64),
        (-3504353485i64, 55254639i64),
    ];
    proof {
        assert(r@ =~= api_coeffs_s());
    }
    r
}

/// The tap table of the Precision-inspired coloration.
pub open spec fn prec_coeffs_s() -> Seq<(i64, i64)> {
    seq![
        (591884402746i64, -83614697i64),
        (-244397509481i64, -26516784i64),
        (141098761032i64, -8404872i64),
        (-100535071282i64, -17681010i64),
        (58592878806i64, -3613981i64),
        (-43374068898i64, -7359412i64),
        (15899006805i64, 2073474i64),
        (-10872348550i64, -7321234i64),
        (-8457824297i64, 1330586i64),
        (6622785866i64, -4245947i64),
        (-20005921938i64, -6328969i64),
        (13211577772i64, -14211716i64),
        (-22499553630i64, -1639371i64),
        (11964920776i64, -5353852i64),
        (-19059174270i64, -1216729i64),
        (7619094821i64, -3262429i64),
        (-13627447803i64, -3592742i64),
        (2001831227i64, -892075i64),
        (-8330426372i64, -9467677i64),
        (-2584811752i64, 874294i64),
        (-4597444797i64, 495198i64),
        (-5342770310i64, -3975478i64),
        (-2723329196i64, -400772i64),
        (-6372437824i64, 1394191i64),
        (-2330015903i64, -4201299i64),
        (-6232967278i64, -190107i64),
        (-2761770964i64, -5803019i64),
        (-5591847549i64, -805973i64),
        (-3431801444i64, 2437011i64),
        (-4933254289i64, -3009857i64),
        (-3961408277i64, 514597i64),
        (-4484978799i64, -7444128i64),
        (-4251468888i64, 823460i64),
    ]
}

fn prec_coeffs() -> (r: Vec<(i64, i64)>)
    ensures
        r@ == prec_coeffs_s(),
{
    let r: Vec<(i64, i64)> = vec![
        (591884402746i64, -83614697i64),
        (-244397509481i64, -26516784i64),
        (141098761032i64, -8404872i64),
        (-100535071282i64, -17681010i64),
        (58592878806i64, -3613981i64),
        (-43374068898i64, -7359412i64),
        (15899006805i64, 2073474i64),
        (-10872348550i64, -7321234i64),
        (-8457824297i64, 1330586i64),
        (6622785866i64, -4245947i64),
        (-20005921938i64, -6328969i64),
        (13211577772i64, -14211716i64),
        (-22499553630i64, -1639371i64),
        (11964920776i64, -5353852i64),
        (-19059174270i64, -1216729i64),
        (7619094821i64, -3262429i64),
        (-13627447803i64, -3592742i64),
        (2001831227i64, -892075i64),
        (-8330426372i64, -9467677i64),
        (-2584811752i64, 874294i64),
        (-4597444797i64, 495198i64),
        (-5342770310i64, -3975478i64),
        (-2723329196i64, -400772i64),
        (-6372437824i64, 1394191i64),
        (-2330015903i64, -4201299i64),
        (-6232967278i64, -190107i64),
        (-2761770964i64, -5803019i64),
        (-5591847549i64, -805973i64),
        (-3431801444i64, 2437011i64),
        (-4933254289i64, -3009857i64),
        (-3961408277i64, 514597i64),
        (-4484978799i64, -7444128i64),
        (-4251468888i64, 823460i64),
    ];
    proof {
        assert(r@ =~= prec_coeffs_s());
    }
    r
}

/// The console: per-mode tap lines and the control values of the saturation
/// stage.
pub struct Console {
    pub threshold: i64,
    pub drive: i64,
    pub console_type: ConsoleMode,
    pub sample_rate: i64,
    pub duro_array: Vec<i64>,
    pub leaf_array: Vec<i64>,
    pub vine_array: Vec<i64>,
    pub neve_array: Vec<i64>,
    pub prec_array: Vec<i64>,
    pub api_array: Vec<i64>,
}

impl Console {
    /// Each mode's tap line has its fixed length: one more than its table.
    pub open spec fn wf(self) -> bool {
        &&& self.duro_array@.len() == 12
        &&& self.leaf_array@.len() == 20
        &&& self.vine_array@.len() == 21
        &&& self.neve_array@.len() == 34
        &&& self.prec_array@.len() == 34
        &&& self.api_array@.len() == 34
    }

    /// The tap line a mode owns.
    pub open spec fn mode_line_s(self, mode: ConsoleMode) -> Seq<i64> {
        match mode {
            ConsoleMode::BYPASS => Seq::empty(),
            ConsoleMode::DURO => self.duro_array@,
            ConsoleMode::LEAF => self.leaf_array@,
            ConsoleMode::VINE => self.vine_array@,
            ConsoleMode::NEVE => self.neve_array@,
            ConsoleMode::API => self.api_array@,
            ConsoleMode::PRECISION => self.prec_array@,
        }
    }

    /// A zeroed console with the given threshold and sample rate; it starts
    /// in bypass with no drive.
    pub fn new(threshold: i64, ratio: i32, console_type: ConsoleMode, sample_rate: i64) -> (c:
        Console)
        ensures
            c.wf(),
            c.threshold == threshold,
            c.drive == 0,
            c.console_type == ConsoleMode::BYPASS,
            c.sample_rate == sample_rate,
            forall|mode: ConsoleMode, k: int|
                0 <= k < c.mode_line_s(mode).len() ==> c.mode_line_s(mode)[k] == 0,
    {
        let _ = ratio;
        let _ = console_type;
        let c = Console {
            threshold,
            drive: 0,
            console_type: ConsoleMode::BYPASS,
            sample_rate,
            duro_array: zeroed_line(12),
            leaf_array: zeroed_line(20),
            vine_array: zeroed_line(21),
            neve_array: zeroed_line(34),
            prec_array: zeroed_line(34),
            api_array: zeroed_line(34),
        };
        c
    }

    /// Replace the control values.
    pub fn update_vals(
        &mut self,
        threshold: i64,
        drive: i64,
        console_type: ConsoleMode,
        sample_rate: i64,
    )
        ensures
            *final(self) == (Console {
                threshold,
                drive,
                console_type,
                sample_rate,
                ..*old(self)
            }),
    {
        self.threshold = threshold;
        self.drive = drive;
        self.sample_rate = sample_rate;
        self.console_type = console_type;
    }

    /// The coloration a step applies before saturation: the input itself in
    /// bypass, else the selected mode's FIR output over its shifted tap line,
    /// with a zero drive replaced by a small epsilon.
    pub open spec fn console_out_s(self, sample: i64, console_type: ConsoleMode) -> i64 {
        if console_type == ConsoleMode::BYPASS {
            sample
        } else {
            console_fir_s(
                self.mode_line_s(console_type),
                mode_coeffs_s(console_type),
                sample,
                idrive_s(self.drive),
            ).1
        }
    }

    /// One console step: shift and weigh the selected mode's tap line (bypass
    /// leaves everything untouched and passes the sample through), then apply
    /// the selected saturation. In bypass with no saturation the step is the
    /// identity, whatever the tap lines hold.
    pub fn duro_process(
        &mut self,
        sample: i64,
        sat_type: SaturationModeEnum,
        console_type: ConsoleMode,
    ) -> (out: i64)
        requires
            old(self).wf(),
        ensures
            final(self).wf(),
            final(self).threshold == old(self).threshold,
            final(self).sample_rate == old(self).sample_rate,
            final(self).console_type == old(self).console_type,
            final(self).drive == idrive_s(old(self).drive),
            forall|mode: ConsoleMode|
                mode != console_type ==> final(self).mode_line_s(mode) == old(self).mode_line_s(
                    mode,
                ),
            console_type != ConsoleMode::BYPASS ==> final(self).mode_line_s(console_type)
                == console_fir_s(
                old(self).mode_line_s(console_type),
                mode_coeffs_s(console_type),
                sample,
                idrive_s(old(self).drive),
            ).0,
            console_type == ConsoleMode::BYPASS ==> final(self).mode_line_s(console_type) == old(
                self,
            ).mode_line_s(console_type),
            out == saturate_s(
                old(self).console_out_s(sample, console_type),
                sat_type,
                idrive_s(old(self).drive),
                old(self).threshold,
            ),
            console_type == ConsoleMode::BYPASS && sat_type == SaturationModeEnum::NONESAT ==> out
                == sample,
    {
        self.drive = if self.drive == 0 {
            FP_DRIVE_MICRO
        } else {
            self.drive
        };
        let consoled: i64 = match console_type {
            ConsoleMode::BYPASS => sample,
            ConsoleMode::DURO => console_fir(&mut self.duro_array, &duro_coeffs(), sample, self.drive),
            ConsoleMode::LEAF => console_fir(&mut self.leaf_array, &leaf_coeffs(), sample, self.drive),
            ConsoleMode::VINE => console_fir(&mut self.vine_array, &vine_coeffs(), sample, self.drive),
            ConsoleMode::NEVE => console_fir(&mut self.neve_array, &neve_coeffs(), sample, self.drive),
            ConsoleMode::API => console_fir(&mut self.api_array, &api_coeffs(), sample, self.drive),
            ConsoleMode::PRECISION => console_fir(
                &mut self.prec_array,
                &prec_coeffs(),
                sample,
                self.drive,
            ),
        };
        saturate(consoled, sat_type, self.drive, self.threshold)
    }
}

/// A console drive with zero replaced by a small epsilon.
pub open spec fn idrive_s(drive: i64) -> i64 {
    if drive == 0 {
        FP_DRIVE_MICRO
    } else {
        drive
    }
}

/// The tap table a mode uses.
pub open spec fn mode_coeffs_s(mode: ConsoleMode) -> Seq<(i64, i64)> {
    match mode {
        ConsoleMode::BYPASS => Seq::empty(),
        ConsoleMode::DURO => duro_coeffs_s(),
        ConsoleMode::LEAF => leaf_coeffs_s(),
        ConsoleMode::VINE => vine_coeffs_s(),
        ConsoleMode::NEVE => neve_coeffs_s(),
        ConsoleMode::API => api_coeffs_s(),
        ConsoleMode::PRECISION => prec_coeffs_s(),
    }
}

/// The saturation stage: one function of the saturation library, chosen by
/// the selector; no saturation passes the sample through.
pub open spec fn saturate_s(consoled: i64, sat_type: SaturationModeEnum, drive: i64, threshold: i64) -> i64 {
    match sat_type {
        SaturationModeEnum::NONESAT => consoled,
        SaturationModeEnum::TAPESAT => tape_saturation_s(consoled, drive, threshold),
        SaturationModeEnum::ODDHARMONICS => odd_saturation_with_threshold_s(consoled, drive, threshold),
        SaturationModeEnum::FORTHHARM => add_x_harmonics_s(consoled, drive, threshold, 4),
        SaturationModeEnum::CANDLE => candle_saturation_s(consoled, drive, threshold),
        SaturationModeEnum::DIGITAL => digital_saturation_s(consoled, threshold, drive),
        SaturationModeEnum::CHEBYSHEV => chebyshev_tape_s(consoled, threshold, drive),
        SaturationModeEnum::GOLDENCUBIC => golden_cubic_s(consoled, threshold, drive),
        SaturationModeEnum::LEAF => leaf_saturation_s(consoled, threshold, drive),
        SaturationModeEnum::TRANSFORMER => transformer_saturation_s(consoled, threshold, drive),
    }
}

fn saturate(consoled: i64, sat_type: SaturationModeEnum, drive: i64, threshold: i64) -> (out: i64)
    ensures
        out == saturate_s(consoled, sat_type, drive, threshold),
{
    match sat_type {
        SaturationModeEnum::NONESAT => consoled,
        SaturationModeEnum::TAPESAT => tape_saturation(consoled, drive, threshold),
        SaturationModeEnum::ODDHARMONICS => odd_saturation_with_threshold(consoled, drive, threshold),
        SaturationModeEnum::FORTHHARM => add_x_harmonics(consoled, drive, threshold, 4),
        SaturationModeEnum::CANDLE => candle_saturation(consoled, drive, threshold),
        SaturationModeEnum::DIGITAL => digital_saturation(consoled, threshold, drive),
        SaturationModeEnum::CHEBYSHEV => chebyshev_tape(consoled, threshold, drive),
        SaturationModeEnum::GOLDENCUBIC => golden_cubic(consoled, threshold, drive),
        SaturationModeEnum::LEAF => leaf_saturation(consoled, threshold, drive),
        SaturationModeEnum::TRANSFORMER => transformer_saturation(consoled, threshold, drive),
    }
}

fn zeroed_line(n: usize) -> (line: Vec<i64>)
    ensures
        line@.len() == n,
        forall|k: int| 0 <= k < n ==> line@[k] == 0,
{
    let mut line: Vec<i64> = Vec::new();
    let mut i: usize = 0;
    while i < n
        invariant
            i <= n,
            line@.len() == i,
            forall|k: int| 0 <= k < i ==> line@[k] == 0,
        decreases n - i,
    {
        line.push(0);
        i = i + 1;
    }
    line
}

/// One band's peaking-filter coefficients, normalised by its leading
/// denominator term.
pub open spec fn band_coeffs_s(boost_db: i64, sr: i64, band: i64) -> (i64, i64, i64, i64, i64) {
    let omega = fp_div_s(fp_mul_s(FP_TWO_PI, band), sr);
    let alpha_term = fp_div_s(0, boost_db);
    let cos_omega = fp_cos_s(omega);
    let a0 = fp_add_s(FP_ONE, alpha_term);
    let a1 = fp_mul_s(-2_000_000_000_000i64, cos_omega);
    let a2 = fp_sub_s(FP_ONE, alpha_term);
    let b0 = fp_div_s(fp_div_s(fp_add_s(FP_ONE, cos_omega), FP_TWO), boost_db);
    let b1 = fp_div_s(fp_neg_s(fp_add_s(FP_ONE, cos_omega)), boost_db);
    let b2 = fp_div_s(fp_div_s(fp_add_s(FP_ONE, cos_omega), FP_TWO), boost_db);
    (
        fp_div_s(b0, a0),
        fp_div_s(b1, a0),
        fp_div_s(b2, a0),
        fp_div_s(a1, a0),
        fp_div_s(a2, a0),
    )
}

fn band_coeffs(boost_db: i64, sr: i64, band: i64) -> (r: (i64, i64, i64, i64, i64))
    ensures
        r == band_coeffs_s(boost_db, sr, band),
{
    let omega = fp_div(fp_mul(FP_TWO_PI, band), sr);
    let alpha_term = fp_div(0, boost_db);
    let cos_omega = fp_cos(omega);
    let a0 = fp_add(FP_ONE, alpha_term);
    let a1 = fp_mul(-2_000_000_000_000i64, cos_omega);
    let a2 = fp_sub(FP_ONE, alpha_term);
    let b0 = fp_div(fp_div(fp_add(FP_ONE, cos_omega), FP_TWO), boost_db);
    let b1 = fp_div(fp_neg(fp_add(FP_ONE, cos_omega)), boost_db);
    let b2 = fp_div(fp_div(fp_add(FP_ONE, cos_omega), FP_TWO), boost_db);
    (
        fp_div(b0, a0),
        fp_div(b1, a0),
        fp_div(b2, a0),
        fp_div(a1, a0),
        fp_div(a2, a0),
    )
}

/// The peaking-filter coefficients of each requested band.
pub open spec fn gen_coefficients_s(boost_db: i64, sr: i64, bands: Seq<i64>) -> Seq<
    (i64, i64, i64, i64, i64),
> {
    bands.map_values(|band: i64| band_coeffs_s(boost_db, sr, band))
}

/// The peaking-filter coefficients of each requested band.
pub fn gen_coefficients(boost_db: i64, sr: i64, bands: Vec<i64>) -> (r: Vec<
    (i64, i64, i64, i64, i64),
>)
    ensures
        r@ == gen_coefficients_s(boost_db, sr, bands@),
{
    let mut r: Vec<(i64, i64, i64, i64, i64)> = Vec::new();
    let mut i: usize = 0;
    while i < bands.len()
        invariant
            i <= bands@.len(),
            r@ == gen_coefficients_s(boost_db, sr, bands@.take(i as int)),
        decreases bands@.len() - i,
    {
        let c = band_coeffs(boost_db, sr, bands[i]);
        r.push(c);
        proof {
            assert(bands@.take(i + 1).map_values(|band: i64| band_coeffs_s(boost_db, sr, band))
                =~= bands@.take(i as int).map_values(
                |band: i64| band_coeffs_s(boost_db, sr, band),
            ).push(band_coeffs_s(boost_db, sr, bands@[i as int])));
        }
        i = i + 1;
    }
    proof {
        assert(bands@.take(bands@.len() as int) =~= bands@);
    }
    r
}

} // verus!
