use vstd::prelude::*;

use crate::member::{fits_i64, Member};

verus! {

/// Length needed for the first prestige.
pub const PRESTIGE_BASE_REQUIRED_LENGTH: i64 = 1000;
/// Each prestige level multiplies the requirement by this many percent.
pub const PRESTIGE_REQUIREMENT_PERCENT: i64 = 112;
/// Levels past this one need no more than this level did.
pub const PRESTIGE_REQUIREMENT_LEVEL_CAP: i64 = 50;
/// Prestige points gained, in percent of the length given up.
pub const PRESTIGE_BONUS_PERCENT: i64 = 10;

/// `b` to the power `e`.
pub open spec fn power(b: int, e: nat) -> int
    decreases e,
{
    if e == 0 {
        1
    } else {
        b * power(b, (e - 1) as nat)
    }
}

/// `num / den` rounded to the nearest integer, halves away from zero.
pub open spec fn round_div(num: int, den: int) -> int {
    if num >= 0 {
        (2 * num + den) / (2 * den)
    } else {
        -((2 * (-num) + den) / (2 * den))
    }
}

/// Length needed to prestige from `level`: 1000 · 1.12^level rounded to the
/// nearest whole cm, with the level taken within 0..=50.
pub open spec fn prestige_requirement(level: int) -> int {
    let n: nat = if level < 0 {
        0
    } else if level > PRESTIGE_REQUIREMENT_LEVEL_CAP {
        PRESTIGE_REQUIREMENT_LEVEL_CAP as nat
    } else {
        level as nat
    };
    round_div(
        PRESTIGE_BASE_REQUIRED_LENGTH * power(PRESTIGE_REQUIREMENT_PERCENT as int, n),
        power(100, n),
    )
}

/// The requirements of levels 0..=50, in order.
pub open spec fn requirement_table() -> Seq<int> {
    seq![
        1000, 1120, 1254, 1405, 1574, 1762, 1974, 2211, 2476, 2773, 3106, 3479, 3896, 4363, 4887,
        5474, 6130, 6866, 7690, 8613, 9646, 10804, 12100, 13552, 15179, 17000, 19040, 21325,
        23884, 26750, 29960, 33555, 37582, 42092, 47143, 52800, 59136, 66232, 74180, 83081,
        93051, 104217, 116723, 130730, 146418, 163988, 183666, 205706, 230391, 258038, 289002,
    ]
}

proof fn lemma_round_div_value(num: int, den: int, q: int)
    requires
        den > 0,
        num >= 0,
        den * (2 * q - 1) <= 2 * num < den * (2 * q + 1),
    ensures
        round_div(num, den) == q,
{
    assert(2 * den * q <= 2 * num + den < 2 * den * q + 2 * den) by (nonlinear_arith)
        requires
            den * (2 * q - 1) <= 2 * num < den * (2 * q + 1),
    ;
    assert((2 * num + den) / (2 * den) == q) by (nonlinear_arith)
        requires
            den > 0,
            2 * den * q <= 2 * num + den < 2 * den * q + 2 * den,
    {
        vstd::arithmetic::div_mod::lemma_fundamental_div_mod_converse(
            2 * num + den,
            2 * den,
            q,
            2 * num + den - 2 * den * q,
        );
    }
}

proof fn lemma_requirement_values()
    ensures
        forall|n: int| 0 <= n <= 50 ==> #[trigger] prestige_requirement(n) == requirement_table()[n],
{
    assert(power(112, 0) == 1);
    assert(power(100, 0) == 1);
    assert(prestige_requirement(0) == round_div(1000int * 1int, 1int));
    lemma_round_div_value(1000int * 1int, 1int, 1000);
    assert(power(112, 1) == 112);
    assert(power(100, 1) == 100);
    assert(prestige_requirement(1) == round_div(1000int * 112int, 100int));
    lemma_round_div_value(1000int * 112int, 100int, 1120);
    assert(power(112, 2) == 12544);
    assert(power(100, 2) == 10000);
    assert(prestige_requirement(2) == round_div(1000int * 12544int, 10000int));
    lemma_round_div_value(1000int * 12544int, 10000int, 1254);
    assert(power(112, 3) == 1404928);
    assert(power(100, 3) == 1000000);
    assert(prestige_requirement(3) == round_div(1000int * 1404928int, 1000000int));
    lemma_round_div_value(1000int * 1404928int, 1000000int, 1405);
    assert(power(112, 4) == 157351936);
    assert(power(100, 4) == 100000000);
    assert(prestige_requirement(4) == round_div(1000int * 157351936int, 100000000int));
    lemma_round_div_value(1000int * 157351936int, 100000000int, 1574);
    assert(power(112, 5) == 17623416832);
    assert(power(100, 5) == 10000000000);
    assert(prestige_requirement(5) == round_div(1000int * 17623416832int, 10000000000int));
    lemma_round_div_value(1000int * 17623416832int, 10000000000int, 1762);
    assert(power(112, 6) == 1973822685184);
    assert(power(100, 6) == 1000000000000);
    assert(prestige_requirement(6) == round_div(1000int * 1973822685184int, 1000000000000int));
    lemma_round_div_value(1000int * 1973822685184int, 1000000000000int, 1974);
    assert(power(112, 7) == 221068140740608);
    assert(power(100, 7) == 100000000000000);
    assert(prestige_requirement(7) == round_div(1000int * 221068140740608int, 100000000000000int));
    lemma_round_div_value(1000int * 221068140740608int, 100000000000000int, 2211);
    assert(power(112, 8) == 24759631762948096);
    assert(power(100, 8) == 10000000000000000);
    assert(prestige_requirement(8) == round_div(1000int * 24759631762948096int, 10000000000000000int));
    lemma_round_div_value(1000int * 24759631762948096int, 10000000000000000int, 2476);
    assert(power(112, 9) == 2773078757450186752);
    assert(power(100, 9) == 1000000000000000000);
    assert(prestige_requirement(9) == round_div(1000int * 2773078757450186752int, 1000000000000000000int));
    lemma_round_div_value(1000int * 2773078757450186752int, 1000000000000000000int, 2773);
    assert(power(112, 10) == 310584820834420916224);
    assert(power(100, 10) == 100000000000000000000);
    assert(prestige_requirement(10) == round_div(1000int * 310584820834420916224int, 100000000000000000000int));
    lemma_round_div_value(1000int * 310584820834420916224int, 100000000000000000000int, 3106);
    assert(power(112, 11) == 34785499933455142617088);
    assert(power(100, 11) == 10000000000000000000000);
    assert(prestige_requirement(11) == round_div(1000int * 34785499933455142617088int, 10000000000000000000000int));
    lemma_round_div_value(1000int * 34785499933455142617088int, 10000000000000000000000int, 3479);
    assert(power(112, 12) == 3895975992546975973113856);
    assert(power(100, 12) == 1000000000000000000000000);
    assert(prestige_requirement(12) == round_div(1000int * 3895975992546975973113856int, 1000000000000000000000000int));
    lemma_round_div_value(1000int * 3895975992546975973113856int, 1000000000000000000000000int, 3896);
    assert(power(112, 13) == 436349311165261308988751872);
    assert(power(100, 13) == 100000000000000000000000000);
    assert(prestige_requirement(13) == round_div(1000int * 436349311165261308988751872int, 100000000000000000000000000int));
    lemma_round_div_value(1000int * 436349311165261308988751872int, 100000000000000000000000000int, 4363);
    assert(power(112, 14) == 48871122850509266606740209664);
    assert(power(100, 14) == 10000000000000000000000000000);
    assert(prestige_requirement(14) == round_div(1000int * 48871122850509266606740209664int, 10000000000000000000000000000int));
    lemma_round_div_value(1000int * 48871122850509266606740209664int, 10000000000000000000000000000int, 4887);
    assert(power(112, 15) == 5473565759257037859954903482368);
    assert(power(100, 15) == 1000000000000000000000000000000);
    assert(prestige_requirement(15) == round_div(1000int * 5473565759257037859954903482368int, 1000000000000000000000000000000int));
    lemma_round_div_value(1000int * 5473565759257037859954903482368int, 1000000000000000000000000000000int, 5474);
    assert(power(112, 16) == 613039365036788240314949190025216);
    assert(power(100, 16) == 100000000000000000000000000000000);
    assert(prestige_requirement(16) == round_div(1000int * 613039365036788240314949190025216int, 100000000000000000000000000000000int));
    lemma_round_div_value(1000int * 613039365036788240314949190025216int, 100000000000000000000000000000000int, 6130);
    assert(power(112, 17) == 68660408884120282915274309282824192);
    assert(power(100, 17) == 10000000000000000000000000000000000);
    assert(prestige_requirement(17) == round_div(1000int * 68660408884120282915274309282824192int, 10000000000000000000000000000000000int));
    lemma_round_div_value(1000int * 68660408884120282915274309282824192int, 10000000000000000000000000000000000int, 6866);
    assert(power(112, 18) == 7689965795021471686510722639676309504);
    assert(power(100, 18) == 1000000000000000000000000000000000000);
    assert(prestige_requirement(18) == round_div(1000int * 7689965795021471686510722639676309504int, 1000000000000000000000000000000000000int));
    lemma_round_div_value(1000int * 7689965795021471686510722639676309504int, 1000000000000000000000000000000000000int, 7690);
    assert(power(112, 19) == 861276169042404828889200935643746664448);
    assert(power(100, 19) == 100000000000000000000000000000000000000);
    assert(prestige_requirement(19) == round_div(1000int * 861276169042404828889200935643746664448int, 100000000000000000000000000000000000000int));
    lemma_round_div_value(1000int * 861276169042404828889200935643746664448int, 100000000000000000000000000000000000000int, 8613);
    assert(power(112, 20) == 96462930932749340835590504792099626418176);
    assert(power(100, 20) == 10000000000000000000000000000000000000000);
    assert(prestige_requirement(20) == round_div(1000int * 96462930932749340835590504792099626418176int, 10000000000000000000000000000000000000000int));
    lemma_round_div_value(1000int * 96462930932749340835590504792099626418176int, 10000000000000000000000000000000000000000int, 9646);
    assert(power(112, 21) == 10803848264467926173586136536715158158835712);
    assert(power(100, 21) == 1000000000000000000000000000000000000000000);
    assert(prestige_requirement(21) == round_div(1000int * 10803848264467926173586136536715158158835712int, 1000000000000000000000000000000000000000000int));
    lemma_round_div_value(1000int * 10803848264467926173586136536715158158835712int, 1000000000000000000000000000000000000000000int, 10804);
    assert(power(112, 22) == 1210031005620407731441647292112097713789599744);
    assert(power(100, 22) == 100000000000000000000000000000000000000000000);
    assert(prestige_requirement(22) == round_div(1000int * 1210031005620407731441647292112097713789599744int, 100000000000000000000000000000000000000000000int));
    lemma_round_div_value(1000int * 1210031005620407731441647292112097713789599744int, 100000000000000000000000000000000000000000000int, 12100);
    assert(power(112, 23) == 135523472629485665921464496716554943944435171328);
    assert(power(100, 23) == 10000000000000000000000000000000000000000000000);
    assert(prestige_requirement(23) == round_div(1000int * 135523472629485665921464496716554943944435171328int, 10000000000000000000000000000000000000000000000int));
    lemma_round_div_value(1000int * 135523472629485665921464496716554943944435171328int, 10000000000000000000000000000000000000000000000int, 13552);
    assert(power(112, 24) == 15178628934502394583204023632254153721776739188736);
    assert(power(100, 24) == 1000000000000000000000000000000000000000000000000);
    assert(prestige_requirement(24) == round_div(1000int * 15178628934502394583204023632254153721776739188736int, 1000000000000000000000000000000000000000000000000int));
    lemma_round_div_value(1000int * 15178628934502394583204023632254153721776739188736int, 1000000000000000000000000000000000000000000000000int, 15179);
    assert(power(112, 25) == 1700006440664268193318850646812465216838994789138432);
    assert(power(100, 25) == 100000000000000000000000000000000000000000000000000);
    assert(prestige_requirement(25) == round_div(1000int * 1700006440664268193318850646812465216838994789138432int, 100000000000000000000000000000000000000000000000000int));
    lemma_round_div_value(1000int * 1700006440664268193318850646812465216838994789138432int, 100000000000000000000000000000000000000000000000000int, 17000);
    assert(power(112, 26) == 190400721354398037651711272442996104285967416383504384);
    assert(power(100, 26) == 10000000000000000000000000000000000000000000000000000);
    assert(prestige_requirement(26) == round_div(1000int * 190400721354398037651711272442996104285967416383504384int, 10000000000000000000000000000000000000000000000000000int));
    lemma_round_div_value(1000int * 190400721354398037651711272442996104285967416383504384int, 10000000000000000000000000000000000000000000000000000int, 19040);
    assert(power(112, 27) == 21324880791692580216991662513615563680028350634952491008);
    assert(power(100, 27) == 1000000000000000000000000000000000000000000000000000000);
    assert(prestige_requirement(27) == round_div(1000int * 21324880791692580216991662513615563680028350634952491008int, 1000000000000000000000000000000000000000000000000000000int));
    lemma_round_div_value(1000int * 21324880791692580216991662513615563680028350634952491008int, 1000000000000000000000000000000000000000000000000000000int, 21325);
    assert(power(112, 28) == 2388386648669568984303066201524943132163175271114678992896);
    assert(power(100, 28) == 100000000000000000000000000000000000000000000000000000000);
    assert(prestige_requirement(28) == round_div(1000int * 2388386648669568984303066201524943132163175271114678992896int, 100000000000000000000000000000000000000000000000000000000int));
    lemma_round_div_value(1000int * 2388386648669568984303066201524943132163175271114678992896int, 100000000000000000000000000000000000000000000000000000000int, 23884);
    assert(power(112, 29) == 267499304650991726241943414570793630802275630364844047204352);
    assert(power(100, 29) == 10000000000000000000000000000000000000000000000000000000000);
    assert(prestige_requirement(29) == round_div(1000int * 267499304650991726241943414570793630802275630364844047204352int, 10000000000000000000000000000000000000000000000000000000000int));
    lemma_round_div_value(1000int * 267499304650991726241943414570793630802275630364844047204352int, 10000000000000000000000000000000000000000000000000000000000int, 26750);
    assert(power(112, 30) == 29959922120911073339097662431928886649854870600862533286887424);
    assert(power(100, 30) == 1000000000000000000000000000000000000000000000000000000000000);
    assert(prestige_requirement(30) == round_div(1000int * 29959922120911073339097662431928886649854870600862533286887424int, 1000000000000000000000000000000000000000000000000000000000000int));
    lemma_round_div_value(1000int * 29959922120911073339097662431928886649854870600862533286887424int, 1000000000000000000000000000000000000000000000000000000000000int, 29960);
    assert(power(112, 31) == 3355511277542040213978938192376035304783745507296603728131391488);
    assert(power(100, 31) == 100000000000000000000000000000000000000000000000000000000000000);
    assert(prestige_requirement(31) == round_div(1000int * 3355511277542040213978938192376035304783745507296603728131391488int, 100000000000000000000000000000000000000000000000000000000000000int));
    lemma_round_div_value(1000int * 3355511277542040213978938192376035304783745507296603728131391488int, 100000000000000000000000000000000000000000000000000000000000000int, 33555);
    assert(power(112, 32) == 375817263084708503965641077546115954135779496817219617550715846656);
    assert(power(100, 32) == 10000000000000000000000000000000000000000000000000000000000000000);
    assert(prestige_requirement(32) == round_div(1000int * 375817263084708503965641077546115954135779496817219617550715846656int, 10000000000000000000000000000000000000000000000000000000000000000int));
    lemma_round_div_value(1000int * 375817263084708503965641077546115954135779496817219617550715846656int, 10000000000000000000000000000000000000000000000000000000000000000int, 37582);
    assert(power(112, 33) == 42091533465487352444151800685164986863207303643528597165680174825472);
    assert(power(100, 33) == 1000000000000000000000000000000000000000000000000000000000000000000);
    assert(prestige_requirement(33) == round_div(1000int * 42091533465487352444151800685164986863207303643528597165680174825472int, 1000000000000000000000000000000000000000000000000000000000000000000int));
    lemma_round_div_value(1000int * 42091533465487352444151800685164986863207303643528597165680174825472int, 1000000000000000000000000000000000000000000000000000000000000000000int, 42092);
    assert(power(112, 34) == 4714251748134583473745001676738478528679218008075202882556179580452864);
    assert(power(100, 34) == 100000000000000000000000000000000000000000000000000000000000000000000);
    assert(prestige_requirement(34) == round_div(1000int * 4714251748134583473745001676738478528679218008075202882556179580452864int, 100000000000000000000000000000000000000000000000000000000000000000000int));
    lemma_round_div_value(1000int * 4714251748134583473745001676738478528679218008075202882556179580452864int, 100000000000000000000000000000000000000000000000000000000000000000000int, 47143);
    assert(power(112, 35) == 527996195791073349059440187794709595212072416904422722846292113010720768);
    assert(power(100, 35) == 10000000000000000000000000000000000000000000000000000000000000000000000);
    assert(prestige_requirement(35) == round_div(1000int * 527996195791073349059440187794709595212072416904422722846292113010720768int, 10000000000000000000000000000000000000000000000000000000000000000000000int));
    lemma_round_div_value(1000int * 527996195791073349059440187794709595212072416904422722846292113010720768int, 10000000000000000000000000000000000000000000000000000000000000000000000int, 52800);
    assert(power(112, 36) == 59135573928600215094657301033007474663752110693295344958784716657200726016);
    assert(power(100, 36) == 1000000000000000000000000000000000000000000000000000000000000000000000000);
    assert(prestige_requirement(36) == round_div(1000int * 59135573928600215094657301033007474663752110693295344958784716657200726016int, 1000000000000000000000000000000000000000000000000000000000000000000000000int));
    lemma_round_div_value(1000int * 59135573928600215094657301033007474663752110693295344958784716657200726016int, 1000000000000000000000000000000000000000000000000000000000000000000000000int, 59136);
    assert(power(112, 37) == 6623184280003224090601617715696837162340236397649078635383888265606481313792);
    assert(power(100, 37) == 100000000000000000000000000000000000000000000000000000000000000000000000000);
    assert(prestige_requirement(37) == round_div(1000int * 6623184280003224090601617715696837162340236397649078635383888265606481313792int, 100000000000000000000000000000000000000000000000000000000000000000000000000int));
    lemma_round_div_value(1000int * 6623184280003224090601617715696837162340236397649078635383888265606481313792int, 100000000000000000000000000000000000000000000000000000000000000000000000000int, 66232);
    assert(power(112, 38) == 741796639360361098147381184158045762182106476536696807162995485747925907144704);
    assert(power(100, 38) == 10000000000000000000000000000000000000000000000000000000000000000000000000000);
    assert(prestige_requirement(38) == round_div(1000int * 741796639360361098147381184158045762182106476536696807162995485747925907144704int, 10000000000000000000000000000000000000000000000000000000000000000000000000000int));
    lemma_round_div_value(1000int * 741796639360361098147381184158045762182106476536696807162995485747925907144704int, 10000000000000000000000000000000000000000000000000000000000000000000000000000int, 74180);
    assert(power(112, 39) == 83081223608360442992506692625701125364395925372110042402255494403767701600206848);
    assert(power(100, 39) == 1000000000000000000000000000000000000000000000000000000000000000000000000000000);
    assert(prestige_requirement(39) == round_div(1000int * 83081223608360442992506692625701125364395925372110042402255494403767701600206848int, 1000000000000000000000000000000000000000000000000000000000000000000000000000000int));
    lemma_round_div_value(1000int * 83081223608360442992506692625701125364395925372110042402255494403767701600206848int, 1000000000000000000000000000000000000000000000000000000000000000000000000000000int, 83081);
    assert(power(112, 40) == 9305097044136369615160749574078526040812343641676324749052615373221982579223166976);
    assert(power(100, 40) == 100000000000000000000000000000000000000000000000000000000000000000000000000000000);
    assert(prestige_requirement(40) == round_div(1000int * 9305097044136369615160749574078526040812343641676324749052615373221982579223166976int, 100000000000000000000000000000000000000000000000000000000000000000000000000000000int));
    lemma_round_div_value(1000int * 9305097044136369615160749574078526040812343641676324749052615373221982579223166976int, 100000000000000000000000000000000000000000000000000000000000000000000000000000000int, 93051);
    assert(power(112, 41) == 1042170868943273396898003952296794916570982487867748371893892921800862048872994701312);
    assert(power(100, 41) == 10000000000000000000000000000000000000000000000000000000000000000000000000000000000);
    assert(prestige_requirement(41) == round_div(1000int * 1042170868943273396898003952296794916570982487867748371893892921800862048872994701312int, 10000000000000000000000000000000000000000000000000000000000000000000000000000000000int));
    lemma_round_div_value(1000int * 1042170868943273396898003952296794916570982487867748371893892921800862048872994701312int, 10000000000000000000000000000000000000000000000000000000000000000000000000000000000int, 104217);
    assert(power(112, 42) == 116723137321646620452576442657241030655950038641187817652116007241696549473775406546944);
    assert(power(100, 42) == 1000000000000000000000000000000000000000000000000000000000000000000000000000000000000);
    assert(prestige_requirement(42) == round_div(1000int * 116723137321646620452576442657241030655950038641187817652116007241696549473775406546944int, 1000000000000000000000000000000000000000000000000000000000000000000000000000000000000int));
    lemma_round_div_value(1000int * 116723137321646620452576442657241030655950038641187817652116007241696549473775406546944int, 1000000000000000000000000000000000000000000000000000000000000000000000000000000000000int, 116723);
    assert(power(112, 43) == 13072991380024421490688561577610995433466404327813035577036992811070013541062845533257728);
    assert(power(100, 43) == 100000000000000000000000000000000000000000000000000000000000000000000000000000000000000);
    assert(prestige_requirement(43) == round_div(1000int * 13072991380024421490688561577610995433466404327813035577036992811070013541062845533257728int, 100000000000000000000000000000000000000000000000000000000000000000000000000000000000000int));
    lemma_round_div_value(1000int * 13072991380024421490688561577610995433466404327813035577036992811070013541062845533257728int, 100000000000000000000000000000000000000000000000000000000000000000000000000000000000000int, 130730);
    assert(power(112, 44) == 1464175034562735206957118896692431488548237284715059984628143194839841516599038699724865536);
    assert(power(100, 44) == 10000000000000000000000000000000000000000000000000000000000000000000000000000000000000000);
    assert(prestige_requirement(44) == round_div(1000int * 1464175034562735206957118896692431488548237284715059984628143194839841516599038699724865536int, 10000000000000000000000000000000000000000000000000000000000000000000000000000000000000000int));
    lemma_round_div_value(1000int * 1464175034562735206957118896692431488548237284715059984628143194839841516599038699724865536int, 10000000000000000000000000000000000000000000000000000000000000000000000000000000000000000int, 146418);
    assert(power(112, 45) == 163987603871026343179197316429552326717402575888086718278352037822062249859092334369184940032);
    assert(power(100, 45) == 1000000000000000000000000000000000000000000000000000000000000000000000000000000000000000000);
    assert(prestige_requirement(45) == round_div(1000int * 163987603871026343179197316429552326717402575888086718278352037822062249859092334369184940032int, 1000000000000000000000000000000000000000000000000000000000000000000000000000000000000000000int));
    lemma_round_div_value(1000int * 163987603871026343179197316429552326717402575888086718278352037822062249859092334369184940032int, 1000000000000000000000000000000000000000000000000000000000000000000000000000000000000000000int, 163988);
    assert(power(112, 46) == 18366611633554950436070099440109860592349088499465712447175428236070971984218341449348713283584);
    assert(power(100, 46) == 100000000000000000000000000000000000000000000000000000000000000000000000000000000000000000000);
    assert(prestige_requirement(46) == round_div(1000int * 18366611633554950436070099440109860592349088499465712447175428236070971984218341449348713283584int, 100000000000000000000000000000000000000000000000000000000000000000000000000000000000000000000int));
    lemma_round_div_value(1000int * 18366611633554950436070099440109860592349088499465712447175428236070971984218341449348713283584int, 100000000000000000000000000000000000000000000000000000000000000000000000000000000000000000000int, 183666);
    assert(power(112, 47) == 2057060502958154448839851137292304386343097911940159794083647962439948862232454242327055887761408);
    assert(power(100, 47) == 10000000000000000000000000000000000000000000000000000000000000000000000000000000000000000000000);
    assert(prestige_requirement(47) == round_div(1000int * 2057060502958154448839851137292304386343097911940159794083647962439948862232454242327055887761408int, 10000000000000000000000000000000000000000000000000000000000000000000000000000000000000000000000int));
    lemma_round_div_value(1000int * 2057060502958154448839851137292304386343097911940159794083647962439948862232454242327055887761408int, 10000000000000000000000000000000000000000000000000000000000000000000000000000000000000000000000int, 205706);
    assert(power(112, 48) == 230390776331313298270063327376738091270426966137297896937368571793274272570034875140630259429277696);
    assert(power(100, 48) == 1000000000000000000000000000000000000000000000000000000000000000000000000000000000000000000000000);
    assert(prestige_requirement(48) == round_div(1000int * 230390776331313298270063327376738091270426966137297896937368571793274272570034875140630259429277696int, 1000000000000000000000000000000000000000000000000000000000000000000000000000000000000000000000000int));
    lemma_round_div_value(1000int * 230390776331313298270063327376738091270426966137297896937368571793274272570034875140630259429277696int, 1000000000000000000000000000000000000000000000000000000000000000000000000000000000000000000000000int, 230391);
    assert(power(112, 49) == 25803766949107089406247092666194666222287820207377364456985280040846718527843906015750589056079101952);
    assert(power(100, 49) == 100000000000000000000000000000000000000000000000000000000000000000000000000000000000000000000000000);
    assert(prestige_requirement(49) == round_div(1000int * 25803766949107089406247092666194666222287820207377364456985280040846718527843906015750589056079101952int, 100000000000000000000000000000000000000000000000000000000000000000000000000000000000000000000000000int));
    lemma_round_div_value(1000int * 25803766949107089406247092666194666222287820207377364456985280040846718527843906015750589056079101952int, 100000000000000000000000000000000000000000000000000000000000000000000000000000000000000000000000000int, 258038);
    assert(power(112, 50) == 2890021898299994013499674378613802616896235863226264819182351364574832475118517473764065974280859418624);
    assert(power(100, 50) == 10000000000000000000000000000000000000000000000000000000000000000000000000000000000000000000000000000);
    assert(prestige_requirement(50) == round_div(1000int * 2890021898299994013499674378613802616896235863226264819182351364574832475118517473764065974280859418624int, 10000000000000000000000000000000000000000000000000000000000000000000000000000000000000000000000000000int));
    lemma_round_div_value(1000int * 2890021898299994013499674378613802616896235863226264819182351364574832475118517473764065974280859418624int, 10000000000000000000000000000000000000000000000000000000000000000000000000000000000000000000000000000int, 289002);
    assert forall|n: int| 0 <= n <= 50 implies #[trigger] prestige_requirement(n)
        == requirement_table()[n] by {
        assert(0 <= n <= 50);
    }
}

proof fn lemma_requirement_table()
    ensures
        forall|n: int| 0 <= n <= 50 ==> #[trigger] prestige_requirement(n) == requirement_table()[n],
        forall|n: int| 0 <= n < 50 ==> #[trigger] requirement_table()[n] < requirement_table()[n + 1],
{
    lemma_requirement_values();
}

fn requirement_for_level(level: usize) -> (r: i64)
    requires
        level <= 50,
    ensures
        r == requirement_table()[level as int],
{
    match level {
        0 => 1000,
        1 => 1120,
        2 => 1254,
        3 => 1405,
        4 => 1574,
        5 => 1762,
        6 => 1974,
        7 => 2211,
        8 => 2476,
        9 => 2773,
        10 => 3106,
        11 => 3479,
        12 => 3896,
        13 => 4363,
        14 => 4887,
        15 => 5474,
        16 => 6130,
        17 => 6866,
        18 => 7690,
        19 => 8613,
        20 => 9646,
        21 => 10804,
        22 => 12100,
        23 => 13552,
        24 => 15179,
        25 => 17000,
        26 => 19040,
        27 => 21325,
        28 => 23884,
        29 => 26750,
        30 => 29960,
        31 => 33555,
        32 => 37582,
        33 => 42092,
        34 => 47143,
        35 => 52800,
        36 => 59136,
        37 => 66232,
        38 => 74180,
        39 => 83081,
        40 => 93051,
        41 => 104217,
        42 => 116723,
        43 => 130730,
        44 => 146418,
        45 => 163988,
        46 => 183666,
        47 => 205706,
        48 => 230391,
        49 => 258038,
        _ => 289002,
    }
}

/// Length needed to prestige from `current_prestige_level`.
pub fn required_length_for_next_prestige(current_prestige_level: i64) -> (r: i64)
    ensures
        r == prestige_requirement(current_prestige_level as int),
        1000 <= r <= 289002,
{
    let level: usize = if current_prestige_level < 0 {
        0
    } else if current_prestige_level > PRESTIGE_REQUIREMENT_LEVEL_CAP {
        50
    } else {
        current_prestige_level as usize
    };
    proof {
        lemma_requirement_table();
        assert(prestige_requirement(current_prestige_level as int) == prestige_requirement(level as int));
        lemma_table_monotone(0, level as int);
        lemma_table_monotone(level as int, 50);
    }
    requirement_for_level(level)
}

proof fn lemma_table_monotone(i: int, j: int)
    requires
        0 <= i <= j <= 50,
    ensures
        requirement_table()[i] <= requirement_table()[j],
    decreases j - i,
{
    if i < j {
        lemma_requirement_table();
        lemma_table_monotone(i, j - 1);
        assert(requirement_table()[j - 1] < requirement_table()[j]);
    }
}

/// Prestige requirements never drop as the level rises, and rise strictly
/// with each level up to the cap.
pub proof fn lemma_prestige_requirement_monotone(a: int, b: int)
    requires
        a <= b,
    ensures
        prestige_requirement(a) <= prestige_requirement(b),
        0 <= a < b <= PRESTIGE_REQUIREMENT_LEVEL_CAP ==> prestige_requirement(a)
            < prestige_requirement(b),
{
    lemma_requirement_table();
    let ca = if a < 0 {
        0
    } else if a > 50 {
        50
    } else {
        a
    };
    let cb = if b < 0 {
        0
    } else if b > 50 {
        50
    } else {
        b
    };
    assert(prestige_requirement(a) == prestige_requirement(ca));
    assert(prestige_requirement(b) == prestige_requirement(cb));
    lemma_table_monotone(ca, cb);
    if 0 <= a < b <= 50 {
        lemma_table_monotone(a + 1, b);
        assert(requirement_table()[a] < requirement_table()[a + 1]);
    }
}

/// `k` is the square root of `n` rounded to the nearest whole number:
/// (k − ½)² ≤ n < (k + ½)², scaled by four.
pub open spec fn is_rounded_sqrt(n: int, k: int) -> bool {
    &&& k >= 0
    &&& (k == 0 || (2 * k - 1) * (2 * k - 1) <= 4 * n)
    &&& 4 * n < (2 * k + 1) * (2 * k + 1)
}

/// The /grow bonus, in cm, of prestige level `level`: the square root of
/// the level (taken as 0 when negative), rounded to the nearest whole number.
pub open spec fn prestige_growth_bonus(level: int) -> int {
    rounded_sqrt(if level < 0 { 0 } else { level })
}

/// The square root of `n` rounded to the nearest whole number.
pub open spec fn rounded_sqrt(n: int) -> int {
    choose|k: int| #[trigger] is_rounded_sqrt(n, k)
}

/// The /grow bonus, in cm, of a prestige level.
pub fn calculate_prestige_growth_bonus(prestige_level: i64) -> (r: i64)
    ensures
        r == prestige_growth_bonus(prestige_level as int),
        is_rounded_sqrt(if prestige_level < 0 { 0 } else { prestige_level as int }, r as int),
        0 <= r <= 3037000500,
{
    let n: u64 = if prestige_level < 0 {
        0
    } else {
        prestige_level as u64
    };
    let mut lo: u64 = 0;
    let mut hi: u64 = 3037000500;
    assert(hi * hi > i64::MAX) by (nonlinear_arith)
        requires
            hi == 3037000500u64,
    ;
    while hi - lo > 1
        invariant
            n <= i64::MAX,
            lo < hi <= 3037000500,
            lo * lo <= n,
            n < hi * hi,
        decreases hi - lo,
    {
        let mid = lo + (hi - lo) / 2;
        assert(mid * mid <= 3037000500 * 3037000500) by (nonlinear_arith)
            requires
                mid <= 3037000500,
        ;
        if mid * mid <= n {
            lo = mid;
        } else {
            hi = mid;
        }
    }
    assert(hi == lo + 1);
    let sq = lo * lo;
    let k = if n - sq > lo {
        lo + 1
    } else {
        lo
    };
    assert(is_rounded_sqrt(n as int, k as int)) by (nonlinear_arith)
        requires
            lo * lo <= n,
            n < (lo + 1) * (lo + 1),
            sq == lo * lo,
            k == (if n - sq > lo { lo + 1 } else { lo as int }),
    ;
    proof {
        let m = if prestige_level < 0 { 0 } else { prestige_level as int };
        assert(m == n as int);
        let c = choose|c: int| is_rounded_sqrt(m, c);
        assert(is_rounded_sqrt(m, c));
        lemma_rounded_sqrt_monotone(m, m, k as int, c);
        lemma_rounded_sqrt_monotone(m, m, c, k as int);
    }
    k as i64
}

/// Rounded square roots are unique and grow with their argument: the
/// prestige growth bonus never shrinks as the level rises.
pub proof fn lemma_rounded_sqrt_monotone(n: int, m: int, k: int, l: int)
    requires
        n <= m,
        is_rounded_sqrt(n, k),
        is_rounded_sqrt(m, l),
    ensures
        k <= l,
{
    if k > l {
        assert((2 * l + 1) * (2 * l + 1) <= (2 * k - 1) * (2 * k - 1)) by (nonlinear_arith)
            requires
                k >= l + 1,
                l >= 0,
        ;
    }
}

/// The prestige growth bonus has diminishing returns: each further level
/// adds at most 1 cm to it, it never shrinks, and it never exceeds the level.
pub proof fn lemma_prestige_bonus_diminishing(level: int)
    requires
        level >= 0,
    ensures
        prestige_growth_bonus(level) <= prestige_growth_bonus(level + 1),
        prestige_growth_bonus(level + 1) <= prestige_growth_bonus(level) + 1,
        prestige_growth_bonus(level) <= level,
{
    lemma_rounded_sqrt_exists(level);
    lemma_rounded_sqrt_exists(level + 1);
    let k = rounded_sqrt(level);
    let l = rounded_sqrt(level + 1);
    assert(is_rounded_sqrt(level, k));
    assert(is_rounded_sqrt(level + 1, l));
    lemma_rounded_sqrt_monotone(level, level + 1, k, l);
    if l > k + 1 {
        assert((2 * k + 3) * (2 * k + 3) <= (2 * l - 1) * (2 * l - 1)) by (nonlinear_arith)
            requires
                l >= k + 2,
                k >= 0,
        ;
        assert(false) by (nonlinear_arith)
            requires
                k >= 0,
                (2 * k + 3) * (2 * k + 3) <= 4 * (level + 1),
                4 * level < (2 * k + 1) * (2 * k + 1),
        ;
    }
    if k > 0 {
        assert(k <= level) by (nonlinear_arith)
            requires
                k >= 1,
                (2 * k - 1) * (2 * k - 1) <= 4 * level,
        ;
    }
}

/// The prestige growth bonus is never negative.
pub proof fn lemma_prestige_growth_bonus_nonnegative(level: int)
    ensures
        prestige_growth_bonus(level) >= 0,
{
    let n = if level < 0 { 0 } else { level };
    lemma_rounded_sqrt_exists(n);
    let k = choose|k: int| #[trigger] is_rounded_sqrt(n, k);
    assert(is_rounded_sqrt(n, k));
}

/// Every non-negative integer has a rounded square root.
pub proof fn lemma_rounded_sqrt_exists(n: int)
    requires
        n >= 0,
    ensures
        exists|k: int| #[trigger] is_rounded_sqrt(n, k),
    decreases n,
{
    if n == 0 {
        assert(is_rounded_sqrt(0, 0)) by (nonlinear_arith);
    } else {
        lemma_rounded_sqrt_exists(n - 1);
        let k = choose|k: int| #[trigger] is_rounded_sqrt(n - 1, k);
        if 4 * n < (2 * k + 1) * (2 * k + 1) {
            assert(is_rounded_sqrt(n, k));
        } else {
            assert(4 * (n - 1) < (2 * k + 1) * (2 * k + 1));
            assert(is_rounded_sqrt(n, k + 1)) by (nonlinear_arith)
                requires
                    k >= 0,
                    4 * n >= (2 * k + 1) * (2 * k + 1),
                    4 * (n - 1) < (2 * k + 1) * (2 * k + 1),
            ;
        }
    }
}

/// Prestige points for giving up `length` cm: a tenth of it, rounded to the
/// nearest whole number (halves away from zero).
pub open spec fn prestige_bonus_points(length: int) -> int {
    round_div(length * PRESTIGE_BONUS_PERCENT, 100)
}

fn bonus_points(length: i64) -> (r: i64)
    ensures
        r == prestige_bonus_points(length as int),
{
    let ten = PRESTIGE_BONUS_PERCENT as i128;
    let num: i128 = length as i128 * ten;
    let r: i128 = if num >= 0 {
        (2 * num + 100) / 200
    } else {
        -((2 * (-num) + 100) / 200)
    };
    assert(-i64::MAX <= r <= i64::MAX) by (nonlinear_arith)
        requires
            num == length * 10,
            num >= 0 ==> r == (2 * num + 100) / 200,
            num < 0 ==> r == -((2 * (-num) + 100) / 200),
            i64::MIN <= length <= i64::MAX,
    ;
    r as i64
}

/// What a completed prestige gave.
#[derive(Clone, Copy, Debug, PartialEq, Eq, Structural)]
pub struct PrestigeOutcome {
    pub length_before: i64,
    pub new_level: i64,
    pub bonus_points: i64,
    pub new_points: i64,
    /// The /grow bonus of the new level.
    pub growth_bonus: i64,
    /// Length needed for the prestige after this one.
    pub next_required: i64,
}

/// A prestige refused for lack of length.
#[derive(Clone, Copy, Debug, PartialEq, Eq, Structural)]
pub struct PrestigeRefusal {
    pub required: i64,
    pub current: i64,
}

/// The prestige's arithmetic stays within `i64`.
pub open spec fn prestige_fits(m: Member) -> bool {
    &&& m.prestige_level < i64::MAX
    &&& fits_i64(m.prestige_points + prestige_bonus_points(m.length as int))
}

/// Title of the message of a prestige reaching `new_level`.
pub open spec fn spec_prestige_title(new_level: int) -> Seq<char> {
    if new_level == 1 {
        "🍆 FIRST PRESTIGE! 🍆"@
    } else if new_level >= 10 {
        "🌟 LEGENDARY PRESTIGE! 🌟"@
    } else {
        "🏆 Prestige Complete! 🏆"@
    }
}

/// The title of the message of a prestige reaching `new_level`.
pub fn prestige_title(new_level: i64) -> (r: &'static str)
    ensures
        r@ == spec_prestige_title(new_level as int),
{
    if new_level == 1 {
        "🍆 FIRST PRESTIGE! 🍆"
    } else if new_level >= 10 {
        "🌟 LEGENDARY PRESTIGE! 🌟"
    } else {
        "🏆 Prestige Complete! 🏆"
    }
}

impl Member {
    /// Tests `prestige_fits`.
    pub fn prestige_fits(&self) -> (r: bool)
        ensures
            r == prestige_fits(*self),
    {
        if self.prestige_level == i64::MAX {
            return false;
        }
        let b = bonus_points(self.length) as i128;
        let total = self.prestige_points as i128 + b;
        i64::MIN as i128 <= total && total <= i64::MAX as i128
    }

    /// Prestige: with at least the required length, the length resets to 0,
    /// the level goes up by one and a tenth of the length given up is added
    /// to the prestige points.
    pub fn prestige(&mut self) -> (r: Result<PrestigeOutcome, PrestigeRefusal>)
        requires
            prestige_fits(*old(self)),
        ensures
            old(self).length < prestige_requirement(old(self).prestige_level as int) ==> r == Err::<
                PrestigeOutcome,
                PrestigeRefusal,
            >(
                PrestigeRefusal {
                    required: prestige_requirement(old(self).prestige_level as int) as i64,
                    current: old(self).length,
                },
            ) && *final(self) == *old(self),
            old(self).length >= prestige_requirement(old(self).prestige_level as int) ==> (r matches Ok(o)
                && o.length_before == old(self).length
                && o.new_level == old(self).prestige_level + 1
                && o.bonus_points == prestige_bonus_points(old(self).length as int)
                && o.new_points == old(self).prestige_points + o.bonus_points
                && is_rounded_sqrt(if o.new_level < 0 { 0 } else { o.new_level as int }, o.growth_bonus as int)
                && o.next_required == prestige_requirement(o.new_level as int)
                && *final(self) == (Member {
                    length: 0,
                    prestige_level: o.new_level,
                    prestige_points: o.new_points,
                    ..*old(self)
                })),
    {
        let required = required_length_for_next_prestige(self.prestige_level);
        if self.length < required {
            return Err(PrestigeRefusal { required, current: self.length });
        }
        let length_before = self.length;
        let new_level = self.prestige_level + 1;
        let bonus = bonus_points(self.length);
        let new_points = self.prestige_points + bonus;
        self.length = 0;
        self.prestige_level = new_level;
        self.prestige_points = new_points;
        Ok(PrestigeOutcome {
            length_before,
            new_level,
            bonus_points: bonus,
            new_points,
            growth_bonus: calculate_prestige_growth_bonus(new_level),
            next_required: required_length_for_next_prestige(new_level),
        })
    }
}

} // verus!
