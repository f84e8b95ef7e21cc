//! Sidetone control (Report ID 0xFF) and mute (via SetValue 0xCA).
//!
//! Sidetone feeds the headset microphone audio back into the earphones at a
//! configurable level.
//!
//! The level is sent as a decibel byte, `truncate(20 * log10(level / 100 + 1))`,
//! so 0% → 0 dB, 50% → 3 dB, 100% → 6 dB. This module computes that value
//! exactly in integers: `20·log10(x) >= k` holds exactly when `x^20 >= 10^k`.
//!
//! ## Report structure (SetSidetoneLevel, Report ID 0xFF)
//!
//! 63-byte feature payload with an 11-byte sub-command header:
//! ```text
//! Byte  0: 0x0B  (report size = 11)
//! Byte  1: 0x00
//! Byte  2: 0xFF  (report ID echo)
//! Byte  3: 0x04
//! Byte  4: 0x0E
//! Byte  5: 0x01
//! Byte  6: 0x05
//! Byte  7: 0x01
//! Byte  8: 0x04
//! Byte  9: 0x00
//! Byte 10: <level_db>
//! ```
//!
//! ## Mute/unmute (via SetValue report ID 0xCA)
//!
//! Sidetone mute uses the SetValue report with [`ValueId::SidetoneState`].
//! Non-silent mute also sets `AudioIndicationsState` and an extended value 0x104.
//! Each of these reports carries the 4-byte SetValue payload.

use vstd::prelude::*;
use crate::legacy::types::ValueId;
use crate::legacy::value::{bool_byte, bool_to_byte, encode_set_value, set_value_payload};
use crate::report::{build, Report};

verus! {

/// `b` to the power `e`.
pub open spec fn power(b: nat, e: nat) -> nat
    decreases e,
{
    if e == 0 { 1 } else { b * power(b, (e - 1) as nat) }
}

/// A percentage clamped to 100.
pub open spec fn clamp_percent(p: u8) -> u8 {
    if p > 100 { 100 } else { p }
}

/// `20·log10(p/100 + 1) >= db`, i.e. `(p + 100)^20 >= 10^(db + 40)`.
pub open spec fn db_reached(p: nat, db: nat) -> bool {
    power(p + 100, 20) >= power(10, db + 40)
}

/// `db` is `20·log10(p/100 + 1)` truncated to an integer.
pub open spec fn is_sidetone_db(p: nat, db: nat) -> bool {
    db_reached(p, db) && !db_reached(p, db + 1)
}

/// `level` is `100·(10^(db/20) − 1)` rounded to the nearest integer:
/// `level − ½ <= 100·10^(db/20) − 100 < level + ½`, raised to the 20th power.
pub open spec fn rounds_to_level(db: nat, level: nat) -> bool {
    &&& power(2 * level + 199, 20) <= power(2, 20) * power(10, db + 40)
    &&& power(2, 20) * power(10, db + 40) < power(2 * level + 201, 20)
}

/// Powers grow with their base.
pub proof fn lemma_power_monotone_base(a: nat, b: nat, e: nat)
    requires
        a <= b,
    ensures
        power(a, e) <= power(b, e),
    decreases e,
{
    if e > 0 {
        lemma_power_monotone_base(a, b, (e - 1) as nat);
        let pa = power(a, (e - 1) as nat);
        let pb = power(b, (e - 1) as nat);
        assert(a * pa <= b * pb) by (nonlinear_arith)
            requires a <= b, pa <= pb;
    }
}

/// Powers of a base of at least 1 grow with their exponent.
pub proof fn lemma_power_monotone_exp(b: nat, e1: nat, e2: nat)
    requires
        b >= 1,
        e1 <= e2,
    ensures
        power(b, e1) <= power(b, e2),
    decreases e2,
{
    if e1 < e2 {
        lemma_power_monotone_exp(b, e1, (e2 - 1) as nat);
        let p = power(b, (e2 - 1) as nat);
        assert(p <= b * p) by (nonlinear_arith)
            requires b >= 1;
    }
}

/// Every `p` between two bounds whose decibel values agree has that value.
proof fn lemma_db_between(p: nat, lo: nat, hi: nat, db: nat)
    requires
        lo <= p <= hi,
        db_reached(lo, db),
        !db_reached(hi, db + 1),
    ensures
        is_sidetone_db(p, db),
{
    lemma_power_monotone_base(lo + 100, p + 100, 20);
    lemma_power_monotone_base(p + 100, hi + 100, 20);
}

/// Adding exponents multiplies powers.
pub proof fn lemma_power_add(b: nat, e1: nat, e2: nat)
    ensures
        power(b, e1 + e2) == power(b, e1) * power(b, e2),
    decreases e1,
{
    if e1 > 0 {
        lemma_power_add(b, (e1 - 1) as nat, e2);
        let x = power(b, (e1 - 1) as nat);
        let y = power(b, e2);
        assert(power(b, e1 + e2) == b * power(b, ((e1 - 1) + e2) as nat));
        assert(power(b, e1) == b * x);
        assert(b * (x * y) == (b * x) * y) by (nonlinear_arith);
        assert(power(b, e1 + e2) == power(b, e1) * power(b, e2));
    } else {
        assert(power(b, e1) == 1);
        assert(e1 + e2 == e2);
    }
}

/// One step of evaluating a power on concrete numbers: from the value at
/// `e1` and at `e2`, the value at `e1 + e2`.
proof fn lemma_power_join(b: nat, e1: nat, v1: nat, e2: nat, v2: nat)
    requires
        power(b, e1) == v1,
        power(b, e2) == v2,
    ensures
        power(b, e1 + e2) == v1 * v2,
{
    lemma_power_add(b, e1, e2);
}

/// The 20th power of `b`, evaluated by squaring: the caller gives the
/// values of `b` to the powers 2, 4, 5, 10 and 20.
proof fn lemma_pow20(b: nat, v2: nat, v4: nat, v5: nat, v10: nat, v20: nat)
    requires
        v2 == b * b,
        v4 == v2 * v2,
        v5 == v4 * b,
        v10 == v5 * v5,
        v20 == v10 * v10,
    ensures
        power(b, 20) == v20,
{
    assert(power(b, 1) == b) by {
        reveal_with_fuel(power, 2);
    }
    lemma_power_join(b, 1, b, 1, b);
    lemma_power_join(b, 2, v2, 2, v2);
    lemma_power_join(b, 4, v4, 1, b);
    lemma_power_join(b, 5, v5, 5, v5);
    lemma_power_join(b, 10, v10, 10, v10);
}

/// The powers of ten from 10^40 to 10^47, and 2^20.
proof fn lemma_powers_of_ten()
    ensures
        power(10, 40) == 10000000000000000000000000000000000000000nat,
        power(10, 41) == 100000000000000000000000000000000000000000nat,
        power(10, 42) == 1000000000000000000000000000000000000000000nat,
        power(10, 43) == 10000000000000000000000000000000000000000000nat,
        power(10, 44) == 100000000000000000000000000000000000000000000nat,
        power(10, 45) == 1000000000000000000000000000000000000000000000nat,
        power(10, 46) == 10000000000000000000000000000000000000000000000nat,
        power(10, 47) == 100000000000000000000000000000000000000000000000nat,
        power(2, 20) == 1048576,
{
    lemma_pow20(10, 100, 10000, 100000, 10000000000, 100000000000000000000nat);
    lemma_power_join(10, 20, 100000000000000000000nat, 20, 100000000000000000000nat);
    assert(power(10, 1) == 10) by {
        reveal_with_fuel(power, 2);
    }
    lemma_power_join(10, 40, 10000000000000000000000000000000000000000nat, 1, 10);
    lemma_power_join(10, 41, 100000000000000000000000000000000000000000nat, 1, 10);
    lemma_power_join(10, 42, 1000000000000000000000000000000000000000000nat, 1, 10);
    lemma_power_join(10, 43, 10000000000000000000000000000000000000000000nat, 1, 10);
    lemma_power_join(10, 44, 100000000000000000000000000000000000000000000nat, 1, 10);
    lemma_power_join(10, 45, 1000000000000000000000000000000000000000000000nat, 1, 10);
    lemma_power_join(10, 46, 10000000000000000000000000000000000000000000000nat, 1, 10);
    lemma_pow20(2, 4, 16, 32, 1024, 1048576);
}

/// The truncated decibel value reaches 1 exactly from 13%.
proof fn lemma_db_step_1()
    ensures
        !db_reached(12, 1),
        db_reached(13, 1),
{
    lemma_pow20(112, 12544, 157351936, 17623416832, 310584820834420916224nat, 96462930932749340835590504792099626418176nat);
    lemma_pow20(113, 12769, 163047361, 18424351793, 339456738992222314849nat, 115230877647233745723406127208308085892801nat);
    lemma_powers_of_ten();
}

/// The truncated decibel value reaches 2 exactly from 26%.
proof fn lemma_db_step_2()
    ensures
        !db_reached(25, 2),
        db_reached(26, 2),
{
    lemma_pow20(125, 15625, 244140625, 30517578125, 931322574615478515625nat, 867361737988403547205962240695953369140625nat);
    lemma_pow20(126, 15876, 252047376, 31757969376, 1008568618886953829376nat, 1017210659003537520633807340180750520549376nat);
    lemma_powers_of_ten();
}

/// The truncated decibel value reaches 3 exactly from 42%.
proof fn lemma_db_step_3()
    ensures
        !db_reached(41, 3),
        db_reached(42, 3),
{
    lemma_pow20(141, 19881, 395254161, 55730836701, 3105926159393528563401nat, 9646777307605034599916576543730454876686801nat);
    lemma_pow20(142, 20164, 406586896, 57735339232, 3333369396234118349824nat, 11111351531750210700745498574332312840830976nat);
    lemma_powers_of_ten();
}

/// The truncated decibel value reaches 4 exactly from 59%.
proof fn lemma_db_step_4()
    ensures
        !db_reached(58, 4),
        db_reached(59, 4),
{
    lemma_pow20(158, 24964, 623201296, 98465804768, 9695514708609891533824nat, 94003005464870749937322510649814191336062976nat);
    lemma_pow20(159, 25281, 639128961, 101621504799, 10326930237613180030401nat, 106645488132529410962721322019756571284220801nat);
    lemma_powers_of_ten();
}

/// The truncated decibel value reaches 5 exactly from 78%.
proof fn lemma_db_step_5()
    ensures
        !db_reached(77, 5),
        db_reached(78, 5),
{
    lemma_pow20(177, 31329, 981506241, 173726604657, 30180933165649574087649nat, 910888726749406421475522588453515030734347201nat);
    lemma_pow20(178, 31684, 1003875856, 178689902368, 31930081208285372007424nat, 1019530085967698642007158034959005203511115776nat);
    lemma_powers_of_ten();
}

/// The truncated decibel value reaches 6 exactly from 100%.
proof fn lemma_db_step_6()
    ensures
        !db_reached(99, 6),
        db_reached(100, 6),
{
    lemma_pow20(199, 39601, 1568239201, 312079600999, 97393677359695041798001nat, 9485528389644374568132540373419686462887596001nat);
    lemma_pow20(200, 40000, 1600000000, 320000000000, 102400000000000000000000nat, 10485760000000000000000000000000000000000000000nat);
    lemma_powers_of_ten();
}

/// Zero percent is zero decibels, and a hundred percent stays below seven.
proof fn lemma_db_ends()
    ensures
        db_reached(0, 0),
        !db_reached(100, 7),
{
    lemma_pow20(100, 10000, 100000000, 10000000000, 100000000000000000000nat, 10000000000000000000000000000000000000000nat);
    lemma_pow20(200, 40000, 1600000000, 320000000000, 102400000000000000000000nat, 10485760000000000000000000000000000000000000000nat);
    lemma_powers_of_ten();
}

/// 0 dB rounds to 0%.
proof fn lemma_level_0()
    ensures
        rounds_to_level(0, 0),
{
    lemma_pow20(199, 39601, 1568239201, 312079600999, 97393677359695041798001nat, 9485528389644374568132540373419686462887596001nat);
    lemma_pow20(201, 40401, 1632240801, 328080401001, 107636749520976961802001nat, 11585669847441534215946133397941609041127604001nat);
    lemma_powers_of_ten();
}

/// 1 dB rounds to 12%.
proof fn lemma_level_1()
    ensures
        rounds_to_level(1, 12),
{
    lemma_pow20(223, 49729, 2472973441, 551473077343, 304122555034158459939649nat, 92490528480504741224589199751838605564722243201nat);
    lemma_pow20(225, 50625, 2562890625, 576650390625, 332525673007965087890625nat, 110573323209400121422731899656355381011962890625nat);
    lemma_powers_of_ten();
}

/// 2 dB rounds to 26%.
proof fn lemma_level_2()
    ensures
        rounds_to_level(2, 26),
{
    lemma_pow20(251, 63001, 3969126001, 996250626251, 992515310305509690315001nat, 985086641190842190075330601206987815818605630001nat);
    lemma_pow20(253, 64009, 4097152081, 1036579476493, 1074497011086501939579049nat, 1154543826833826272054264082996015443887319744401nat);
    lemma_powers_of_ten();
}

/// 3 dB rounds to 41%.
proof fn lemma_level_3()
    ensures
        rounds_to_level(3, 41),
{
    lemma_pow20(281, 78961, 6234839521, 1751989905401, 3069468628627004928970801nat, 9421637662125346302547619176015735207157110581601nat);
    lemma_pow20(283, 80089, 6414247921, 1815232161643, 3295067800663118480459449nat, 10857471810966880705533445330411248645246133383601nat);
    lemma_powers_of_ten();
}

/// 4 dB rounds to 58%.
proof fn lemma_level_4()
    ensures
        rounds_to_level(4, 58),
{
    lemma_pow20(315, 99225, 9845600625, 3101364196875, 9618459881658113759765625nat, 92514770495066615752312585771574096775054931640625nat);
    lemma_pow20(317, 100489, 10098039121, 3201078401357, 10246902931634286779441449nat, 104999019690335340880108588320548243369800419219601nat);
    lemma_powers_of_ten();
}

/// 5 dB rounds to 78%.
proof fn lemma_level_5()
    ensures
        rounds_to_level(5, 78),
{
    lemma_pow20(355, 126025, 15882300625, 5638216721875, 31789487802830871103515625nat, 1010571534766332724825178827298469772434234619140625nat);
    lemma_pow20(357, 127449, 16243247601, 5798839393557, 33626538312268515533112249nat, 1130744078866462305067204391781489931289140033838001nat);
    lemma_powers_of_ten();
}

/// 6 dB and above round to at least 100%.
proof fn lemma_level_cap()
    ensures
        power(399, 20) <= power(2, 20) * power(10, 46),
{
    lemma_pow20(399, 159201, 25344958401, 10112638401999, 102265455449584888327196001nat, 10458223378311031533936347645068209034322999070392001nat);
    lemma_powers_of_ten();
}

/// Convert a linear percentage (0–100) to the logarithmic dB byte sent to the
/// device: `truncate(20 * log10(level / 100 + 1))`; levels above 100 count as 100.
pub fn level_to_db(percent: u8) -> (db: u8)
    ensures
        is_sidetone_db(clamp_percent(percent) as nat, db as nat),
        db <= 6,
{
    let p = if percent > 100 { 100 } else { percent };
    proof {
        lemma_db_step_1();
        lemma_db_step_2();
        lemma_db_step_3();
        lemma_db_step_4();
        lemma_db_step_5();
        lemma_db_step_6();
        lemma_db_ends();
    }
    if p >= 100 {
        proof { lemma_db_between(p as nat, 100, 100, 6); }
        6
    } else if p >= 78 {
        proof { lemma_db_between(p as nat, 78, 99, 5); }
        5
    } else if p >= 59 {
        proof { lemma_db_between(p as nat, 59, 77, 4); }
        4
    } else if p >= 42 {
        proof { lemma_db_between(p as nat, 42, 58, 3); }
        3
    } else if p >= 26 {
        proof { lemma_db_between(p as nat, 26, 41, 2); }
        2
    } else if p >= 13 {
        proof { lemma_db_between(p as nat, 13, 25, 1); }
        1
    } else {
        proof { lemma_db_between(p as nat, 0, 12, 0); }
        0
    }
}

/// Convert a dB byte back to a linear percentage: `100·(10^(db/20) − 1)`
/// rounded to the nearest integer and capped at 100.
pub fn db_to_level(db: u8) -> (level: u8)
    ensures
        db < 6 ==> rounds_to_level(db as nat, level as nat),
        db >= 6 ==> level == 100 && forall|r: nat| rounds_to_level(db as nat, r) ==> r >= 100,
{
    proof {
        lemma_level_0();
        lemma_level_1();
        lemma_level_2();
        lemma_level_3();
        lemma_level_4();
        lemma_level_5();
        lemma_level_cap();
    }
    if db >= 6 {
        assert forall|r: nat| rounds_to_level(db as nat, r) implies r >= 100 by {
            lemma_power_monotone_exp(10, 46, db as nat + 40);
            assert(power(2, 20) * power(10, 46) <= power(2, 20) * power(10, db as nat + 40)) by (nonlinear_arith)
                requires power(10, 46) <= power(10, db as nat + 40);
            if r < 100 {
                lemma_power_monotone_base(2 * r + 201, 399, 20);
            }
        }
        100
    } else if db == 5 {
        78
    } else if db == 4 {
        58
    } else if db == 3 {
        41
    } else if db == 2 {
        26
    } else if db == 1 {
        12
    } else {
        0
    }
}

/// The decibel value never falls as the level rises.
pub proof fn lemma_level_to_db_monotone(p1: nat, p2: nat, db1: nat, db2: nat)
    requires
        p1 <= p2,
        is_sidetone_db(p1, db1),
        is_sidetone_db(p2, db2),
    ensures
        db1 <= db2,
{
    if db1 > db2 {
        lemma_power_monotone_exp(10, db2 + 41, db1 + 40);
        lemma_power_monotone_base(p1 + 100, p2 + 100, 20);
    }
}

/// A `db` that `p` reaches is reached by every level above `p`.
proof fn lemma_db_reached_monotone(p: nat, q: nat, db: nat)
    requires
        p <= q,
        db_reached(p, db),
    ensures
        db_reached(q, db),
{
    lemma_power_monotone_base(p + 100, q + 100, 20);
}

/// At most one level is the rounded value of a decibel value.
proof fn lemma_rounds_to_level_unique(db: nat, l1: nat, l2: nat)
    requires
        rounds_to_level(db, l1),
        rounds_to_level(db, l2),
    ensures
        l1 == l2,
{
    if l1 < l2 {
        lemma_power_monotone_base(2 * l1 + 201, 2 * l2 + 199, 20);
    } else if l2 < l1 {
        lemma_power_monotone_base(2 * l2 + 201, 2 * l1 + 199, 20);
    }
}

/// Converting a level to decibels and back never gives more than the level:
/// for a percentage `p` up to 100, the level that `p`'s decibel value
/// converts back to is at most `p`.
pub proof fn lemma_db_roundtrip_at_most(p: nat, db: nat, level: nat)
    requires
        p <= 100,
        is_sidetone_db(p, db),
        db < 6 ==> rounds_to_level(db, level),
        db >= 6 ==> level == 100,
    ensures
        level <= p,
{
    lemma_db_step_1();
    lemma_db_step_2();
    lemma_db_step_3();
    lemma_db_step_4();
    lemma_db_step_5();
    lemma_db_step_6();
    lemma_db_ends();
    lemma_level_0();
    lemma_level_1();
    lemma_level_2();
    lemma_level_3();
    lemma_level_4();
    lemma_level_5();
    // p's decibel value is at most 6.
    if db >= 7 {
        lemma_power_monotone_exp(10, 47, db + 40);
        lemma_power_monotone_base(p + 100, 200, 20);
    }
    // p lies at or above the step where its decibel value starts.
    if db == 1 && p < 13 { lemma_db_reached_monotone(p, 12, 1); }
    if db == 2 && p < 26 { lemma_db_reached_monotone(p, 25, 2); }
    if db == 3 && p < 42 { lemma_db_reached_monotone(p, 41, 3); }
    if db == 4 && p < 59 { lemma_db_reached_monotone(p, 58, 4); }
    if db == 5 && p < 78 { lemma_db_reached_monotone(p, 77, 5); }
    if db == 6 && p < 100 { lemma_db_reached_monotone(p, 99, 6); }
    // The level is the one that the decibel value rounds to.
    if db == 0 { lemma_rounds_to_level_unique(0, level, 0); }
    if db == 1 { lemma_rounds_to_level_unique(1, level, 12); }
    if db == 2 { lemma_rounds_to_level_unique(2, level, 26); }
    if db == 3 { lemma_rounds_to_level_unique(3, level, 41); }
    if db == 4 { lemma_rounds_to_level_unique(4, level, 58); }
    if db == 5 { lemma_rounds_to_level_unique(5, level, 78); }
}

/// The decibel value of a percentage up to 100 in closed form: it steps up
/// at 13, 26, 42, 59, 78 and 100 percent.
pub proof fn lemma_sidetone_db_steps(p: nat, db: nat)
    requires
        p <= 100,
        is_sidetone_db(p, db),
    ensures
        db == if p >= 100 { 6nat } else if p >= 78 { 5nat } else if p >= 59 { 4nat }
            else if p >= 42 { 3nat } else if p >= 26 { 2nat } else if p >= 13 { 1nat } else { 0nat },
{
    lemma_db_step_1();
    lemma_db_step_2();
    lemma_db_step_3();
    lemma_db_step_4();
    lemma_db_step_5();
    lemma_db_step_6();
    lemma_db_ends();
    let expected: nat = if p >= 100 { 6 } else if p >= 78 { 5 } else if p >= 59 { 4 }
        else if p >= 42 { 3 } else if p >= 26 { 2 } else if p >= 13 { 1 } else { 0 };
    if p >= 100 {
        lemma_db_between(p, 100, 100, 6);
    } else if p >= 78 {
        lemma_db_between(p, 78, 99, 5);
    } else if p >= 59 {
        lemma_db_between(p, 59, 77, 4);
    } else if p >= 42 {
        lemma_db_between(p, 42, 58, 3);
    } else if p >= 26 {
        lemma_db_between(p, 26, 41, 2);
    } else if p >= 13 {
        lemma_db_between(p, 13, 25, 1);
    } else {
        lemma_db_between(p, 0, 12, 0);
    }
    lemma_sidetone_db_unique(p, db, expected);
}

/// A percentage has one decibel value.
proof fn lemma_sidetone_db_unique(p: nat, d1: nat, d2: nat)
    requires
        is_sidetone_db(p, d1),
        is_sidetone_db(p, d2),
    ensures
        d1 == d2,
{
    if d1 < d2 {
        lemma_power_monotone_exp(10, d1 + 41, d2 + 40);
    } else if d2 < d1 {
        lemma_power_monotone_exp(10, d2 + 41, d1 + 40);
    }
}

/// The levels that the decibel values 0 to 5 round to, in closed form.
pub proof fn lemma_rounded_levels(db: nat, level: nat)
    requires
        db < 6,
        rounds_to_level(db, level),
    ensures
        level == if db == 0 { 0nat } else if db == 1 { 12nat } else if db == 2 { 26nat }
            else if db == 3 { 41nat } else if db == 4 { 58nat } else { 78nat },
{
    lemma_level_0();
    lemma_level_1();
    lemma_level_2();
    lemma_level_3();
    lemma_level_4();
    lemma_level_5();
    if db == 0 { lemma_rounds_to_level_unique(0, level, 0); }
    if db == 1 { lemma_rounds_to_level_unique(1, level, 12); }
    if db == 2 { lemma_rounds_to_level_unique(2, level, 26); }
    if db == 3 { lemma_rounds_to_level_unique(3, level, 41); }
    if db == 4 { lemma_rounds_to_level_unique(4, level, 58); }
    if db == 5 { lemma_rounds_to_level_unique(5, level, 78); }
}

/// HID descriptor payload size for report ID 0xFF (feature report).
///
/// macOS requires feature report writes to exactly match this size.
pub const FEATURE_REPORT_PAYLOAD_SIZE: usize = 63;

/// The 63-byte sidetone feature payload: the sub-command header with
/// `level` at byte 10, zeros elsewhere.
pub open spec fn sidetone_payload(level: u8) -> Seq<u8> {
    Seq::new(63, |i: int|
        if i == 0 { 0x0Bu8 }
        else if i == 2 { 0xFFu8 }
        else if i == 3 { 0x04u8 }
        else if i == 4 { 0x0Eu8 }
        else if i == 5 { 0x01u8 }
        else if i == 6 { 0x05u8 }
        else if i == 7 { 0x01u8 }
        else if i == 8 { 0x04u8 }
        else if i == 10 { level }
        else { 0u8 })
}

/// Encode the sidetone feature report (report ID 0xFF) with a raw level byte.
///
/// The 11-byte sub-command header comes from the magic constant
/// `0x0105010e04ff000b` of the vendor's `setSidetoneLevel` transaction; the
/// rest is zero-padded to 63 bytes to match the HID descriptor.
pub fn encode_sidetone_feature(level: u8) -> (r: Report)
    ensures
        r.carries(0xFF, sidetone_payload(level)),
{
    let mut payload = [0u8; 63];
    payload[0] = 0x0B;
    payload[2] = 0xFF;
    payload[3] = 0x04;
    payload[4] = 0x0E;
    payload[5] = 0x01;
    payload[6] = 0x05;
    payload[7] = 0x01;
    payload[8] = 0x04;
    payload[10] = level;
    assert(payload@ =~= sidetone_payload(level));
    build(0xFF, &payload)
}

/// Encode a set-sidetone-level report (report ID 0xFF, feature report):
/// the sidetone feature payload carrying [`level_to_db`] of `percent`.
pub fn encode_set_sidetone_level(percent: u8) -> (r: Report)
    ensures
        exists|db: u8| is_sidetone_db(clamp_percent(percent) as nat, db as nat)
            && r.carries(0xFF, sidetone_payload(db)),
{
    let db = level_to_db(percent);
    encode_sidetone_feature(db)
}

/// The SetValue payloads of a sidetone mute, each zero-padded to the 4-byte
/// payload the descriptor declares: one when silent, three otherwise.
pub open spec fn sidetone_mute_payloads(muted: bool, silent: bool) -> Seq<Seq<u8>> {
    if silent {
        seq![set_value_payload(ValueId::SidetoneState.value(), bool_byte(muted))]
    } else {
        seq![
            set_value_payload(ValueId::AudioIndicationsState.value(), bool_byte(muted)),
            set_value_payload(ValueId::SidetoneState.value(), bool_byte(muted)),
            set_value_payload(0x04u8, 0x01u8),
        ]
    }
}

/// Encode SetValue reports to mute/unmute sidetone.
///
/// `muted`: whether to mute sidetone.
/// `silent`: if false, also sends AudioIndicationsState and extended value.
///
/// Returns 1 report (silent=true) or 3 reports (silent=false).
pub fn encode_set_sidetone_mute(muted: bool, silent: bool) -> (reports: Vec<Report>)
    ensures
        reports@.len() == sidetone_mute_payloads(muted, silent).len(),
        forall|i: int| 0 <= i < reports@.len() ==>
            #[trigger] reports@[i].carries(0xCA, sidetone_mute_payloads(muted, silent)[i]),
{
    let mute_byte = bool_to_byte(muted);
    let mut reports: Vec<Report> = Vec::new();
    if !silent {
        reports.push(encode_set_value(ValueId::AudioIndicationsState, mute_byte));
    }
    reports.push(encode_set_value(ValueId::SidetoneState, mute_byte));
    if !silent {
        // Extended value 0x0104: selector 0x04 (its high byte), value 0x01.
        let extended_id: u8 = 0x04;
        let p3 = [extended_id, 0x01, 0x00, 0x00];
        assert(p3@ =~= set_value_payload(0x04u8, 0x01u8));
        reports.push(build(0xCA, &p3));
    }
    reports
}

} // verus!
