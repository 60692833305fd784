//! BIP-0039 mnemonic phrases in English: the word list, the encoding of
//! entropy into words, and the generation of a fresh phrase.

use vstd::prelude::*;
use vstd::arithmetic::power2::pow2;
use crate::text::count_char;

verus! {

/// The digest SHA-256 gives for `data`, which the checksum of a mnemonic is
/// taken from.
pub uninterp spec fn sha256_digest(data: Seq<u8>) -> Seq<u8>;

/// Word `index` (0 to 2047) of the BIP-0039 English word list, in the list's
/// order; an empty text outside it.
pub open spec fn english_word(index: int) -> Seq<char> {
    if 0 <= index < 2048 {
        list_word(index as u16)
    } else {
        Seq::empty()
    }
}

/// The English list as a table from index to word, in 32 blocks of 64.
#[verifier::opaque]
pub open spec fn list_word(index: u16) -> Seq<char> {
    match index / 64 {
        0u16 => list_block_0(index % 64),
        1u16 => list_block_1(index % 64),
        2u16 => list_block_2(index % 64),
        3u16 => list_block_3(index % 64),
        4u16 => list_block_4(index % 64),
        5u16 => list_block_5(index % 64),
        6u16 => list_block_6(index % 64),
        7u16 => list_block_7(index % 64),
        8u16 => list_block_8(index % 64),
        9u16 => list_block_9(index % 64),
        10u16 => list_block_10(index % 64),
        11u16 => list_block_11(index % 64),
        12u16 => list_block_12(index % 64),
        13u16 => list_block_13(index % 64),
        14u16 => list_block_14(index % 64),
        15u16 => list_block_15(index % 64),
        16u16 => list_block_16(index % 64),
        17u16 => list_block_17(index % 64),
        18u16 => list_block_18(index % 64),
        19u16 => list_block_19(index % 64),
        20u16 => list_block_20(index % 64),
        21u16 => list_block_21(index % 64),
        22u16 => list_block_22(index % 64),
        23u16 => list_block_23(index % 64),
        24u16 => list_block_24(index % 64),
        25u16 => list_block_25(index % 64),
        26u16 => list_block_26(index % 64),
        27u16 => list_block_27(index % 64),
        28u16 => list_block_28(index % 64),
        29u16 => list_block_29(index % 64),
        30u16 => list_block_30(index % 64),
        31u16 => list_block_31(index % 64),
        _ => Seq::empty(),
    }
}

/// Words 0 to 63 of the English list.
#[verifier::opaque]
pub open spec fn list_block_0(j: u16) -> Seq<char> {
    match j {
        0u16 => "abandon"@,
        1u16 => "ability"@,
        2u16 => "able"@,
        3u16 => "about"@,
        4u16 => "above"@,
        5u16 => "absent"@,
        6u16 => "absorb"@,
        7u16 => "abstract"@,
        8u16 => "absurd"@,
        9u16 => "abuse"@,
        10u16 => "access"@,
        11u16 => "accident"@,
        12u16 => "account"@,
        13u16 => "accuse"@,
        14u16 => "achieve"@,
        15u16 => "acid"@,
        16u16 => "acoustic"@,
        17u16 => "acquire"@,
        18u16 => "across"@,
        19u16 => "act"@,
        20u16 => "action"@,
        21u16 => "actor"@,
        22u16 => "actress"@,
        23u16 => "actual"@,
        24u16 => "adapt"@,
        25u16 => "add"@,
        26u16 => "addict"@,
        27u16 => "address"@,
        28u16 => "adjust"@,
        29u16 => "admit"@,
        30u16 => "adult"@,
        31u16 => "advance"@,
        32u16 => "advice"@,
        33u16 => "aerobic"@,
        34u16 => "affair"@,
        35u16 => "afford"@,
        36u16 => "afraid"@,
        37u16 => "again"@,
        38u16 => "age"@,
        39u16 => "agent"@,
        40u16 => "agree"@,
        41u16 => "ahead"@,
        42u16 => "aim"@,
        43u16 => "air"@,
        44u16 => "airport"@,
        45u16 => "aisle"@,
        46u16 => "alarm"@,
        47u16 => "album"@,
        48u16 => "alcohol"@,
        49u16 => "alert"@,
        50u16 => "alien"@,
        51u16 => "all"@,
        52u16 => "alley"@,
        53u16 => "allow"@,
        54u16 => "almost"@,
        55u16 => "alone"@,
        56u16 => "alpha"@,
        57u16 => "already"@,
        58u16 => "also"@,
        59u16 => "alter"@,
        60u16 => "always"@,
        61u16 => "amateur"@,
        62u16 => "amazing"@,
        63u16 => "among"@,
        _ => Seq::empty(),
    }
}

/// Words 64 to 127 of the English list.
#[verifier::opaque]
pub open spec fn list_block_1(j: u16) -> Seq<char> {
    match j {
        0u16 => "amount"@,
        1u16 => "amused"@,
        2u16 => "analyst"@,
        3u16 => "anchor"@,
        4u16 => "ancient"@,
        5u16 => "anger"@,
        6u16 => "angle"@,
        7u16 => "angry"@,
        8u16 => "animal"@,
        9u16 => "ankle"@,
        10u16 => "announce"@,
        11u16 => "annual"@,
        12u16 => "another"@,
        13u16 => "answer"@,
        14u16 => "antenna"@,
        15u16 => "antique"@,
        16u16 => "anxiety"@,
        17u16 => "any"@,
        18u16 => "apart"@,
        19u16 => "apology"@,
        20u16 => "appear"@,
        21u16 => "apple"@,
        22u16 => "approve"@,
        23u16 => "april"@,
        24u16 => "arch"@,
        25u16 => "arctic"@,
        26u16 => "area"@,
        27u16 => "arena"@,
        28u16 => "argue"@,
        29u16 => "arm"@,
        30u16 => "armed"@,
        31u16 => "armor"@,
        32u16 => "army"@,
        33u16 => "around"@,
        34u16 => "arrange"@,
        35u16 => "arrest"@,
        36u16 => "arrive"@,
        37u16 => "arrow"@,
        38u16 => "art"@,
        39u16 => "artefact"@,
        40u16 => "artist"@,
        41u16 => "artwork"@,
        42u16 => "ask"@,
        43u16 => "aspect"@,
        44u16 => "assault"@,
        45u16 => "asset"@,
        46u16 => "assist"@,
        47u16 => "assume"@,
        48u16 => "asthma"@,
        49u16 => "athlete"@,
        50u16 => "atom"@,
        51u16 => "attack"@,
        52u16 => "attend"@,
        53u16 => "attitude"@,
        54u16 => "attract"@,
        55u16 => "auction"@,
        56u16 => "audit"@,
        57u16 => "august"@,
        58u16 => "aunt"@,
        59u16 => "author"@,
        60u16 => "auto"@,
        61u16 => "autumn"@,
        62u16 => "average"@,
        63u16 => "avocado"@,
        _ => Seq::empty(),
    }
}

/// Words 128 to 191 of the English list.
#[verifier::opaque]
pub open spec fn list_block_2(j: u16) -> Seq<char> {
    match j {
        0u16 => "avoid"@,
        1u16 => "awake"@,
        2u16 => "aware"@,
        3u16 => "away"@,
        4u16 => "awesome"@,
        5u16 => "awful"@,
        6u16 => "awkward"@,
        7u16 => "axis"@,
        8u16 => "baby"@,
        9u16 => "bachelor"@,
        10u16 => "bacon"@,
        11u16 => "badge"@,
        12u16 => "bag"@,
        13u16 => "balance"@,
        14u16 => "balcony"@,
        15u16 => "ball"@,
        16u16 => "bamboo"@,
        17u16 => "banana"@,
        18u16 => "banner"@,
        19u16 => "bar"@,
        20u16 => "barely"@,
        21u16 => "bargain"@,
        22u16 => "barrel"@,
        23u16 => "base"@,
        24u16 => "basic"@,
        25u16 => "basket"@,
        26u16 => "battle"@,
        27u16 => "beach"@,
        28u16 => "bean"@,
        29u16 => "beauty"@,
        30u16 => "because"@,
        31u16 => "become"@,
        32u16 => "beef"@,
        33u16 => "before"@,
        34u16 => "begin"@,
        35u16 => "behave"@,
        36u16 => "behind"@,
        37u16 => "believe"@,
        38u16 => "below"@,
        39u16 => "belt"@,
        40u16 => "bench"@,
        41u16 => "benefit"@,
        42u16 => "best"@,
        43u16 => "betray"@,
        44u16 => "better"@,
        45u16 => "between"@,
        46u16 => "beyond"@,
        47u16 => "bicycle"@,
        48u16 => "bid"@,
        49u16 => "bike"@,
        50u16 => "bind"@,
        51u16 => "biology"@,
        52u16 => "bird"@,
        53u16 => "birth"@,
        54u16 => "bitter"@,
        55u16 => "black"@,
        56u16 => "blade"@,
        57u16 => "blame"@,
        58u16 => "blanket"@,
        59u16 => "blast"@,
        60u16 => "bleak"@,
        61u16 => "bless"@,
        62u16 => "blind"@,
        63u16 => "blood"@,
        _ => Seq::empty(),
    }
}

/// Words 192 to 255 of the English list.
#[verifier::opaque]
pub open spec fn list_block_3(j: u16) -> Seq<char> {
    match j {
        0u16 => "blossom"@,
        1u16 => "blouse"@,
        2u16 => "blue"@,
        3u16 => "blur"@,
        4u16 => "blush"@,
        5u16 => "board"@,
        6u16 => "boat"@,
        7u16 => "body"@,
        8u16 => "boil"@,
        9u16 => "bomb"@,
        10u16 => "bone"@,
        11u16 => "bonus"@,
        12u16 => "book"@,
        13u16 => "boost"@,
        14u16 => "border"@,
        15u16 => "boring"@,
        16u16 => "borrow"@,
        17u16 => "boss"@,
        18u16 => "bottom"@,
        19u16 => "bounce"@,
        20u16 => "box"@,
        21u16 => "boy"@,
        22u16 => "bracket"@,
        23u16 => "brain"@,
        24u16 => "brand"@,
        25u16 => "brass"@,
        26u16 => "brave"@,
        27u16 => "bread"@,
        28u16 => "breeze"@,
        29u16 => "brick"@,
        30u16 => "bridge"@,
        31u16 => "brief"@,
        32u16 => "bright"@,
        33u16 => "bring"@,
        34u16 => "brisk"@,
        35u16 => "broccoli"@,
        36u16 => "broken"@,
        37u16 => "bronze"@,
        38u16 => "broom"@,
        39u16 => "brother"@,
        40u16 => "brown"@,
        41u16 => "brush"@,
        42u16 => "bubble"@,
        43u16 => "buddy"@,
        44u16 => "budget"@,
        45u16 => "buffalo"@,
        46u16 => "build"@,
        47u16 => "bulb"@,
        48u16 => "bulk"@,
        49u16 => "bullet"@,
        50u16 => "bundle"@,
        51u16 => "bunker"@,
        52u16 => "burden"@,
        53u16 => "burger"@,
        54u16 => "burst"@,
        55u16 => "bus"@,
        56u16 => "business"@,
        57u16 => "busy"@,
        58u16 => "butter"@,
        59u16 => "buyer"@,
        60u16 => "buzz"@,
        61u16 => "cabbage"@,
        62u16 => "cabin"@,
        63u16 => "cable"@,
        _ => Seq::empty(),
    }
}

/// Words 256 to 319 of the English list.
#[verifier::opaque]
pub open spec fn list_block_4(j: u16) -> Seq<char> {
    match j {
        0u16 => "cactus"@,
        1u16 => "cage"@,
        2u16 => "cake"@,
        3u16 => "call"@,
        4u16 => "calm"@,
        5u16 => "camera"@,
        6u16 => "camp"@,
        7u16 => "can"@,
        8u16 => "canal"@,
        9u16 => "cancel"@,
        10u16 => "candy"@,
        11u16 => "cannon"@,
        12u16 => "canoe"@,
        13u16 => "canvas"@,
        14u16 => "canyon"@,
        15u16 => "capable"@,
        16u16 => "capital"@,
        17u16 => "captain"@,
        18u16 => "car"@,
        19u16 => "carbon"@,
        20u16 => "card"@,
        21u16 => "cargo"@,
        22u16 => "carpet"@,
        23u16 => "carry"@,
        24u16 => "cart"@,
        25u16 => "case"@,
        26u16 => "cash"@,
        27u16 => "casino"@,
        28u16 => "castle"@,
        29u16 => "casual"@,
        30u16 => "cat"@,
        31u16 => "catalog"@,
        32u16 => "catch"@,
        33u16 => "category"@,
        34u16 => "cattle"@,
        35u16 => "caught"@,
        36u16 => "cause"@,
        37u16 => "caution"@,
        38u16 => "cave"@,
        39u16 => "ceiling"@,
        40u16 => "celery"@,
        41u16 => "cement"@,
        42u16 => "census"@,
        43u16 => "century"@,
        44u16 => "cereal"@,
        45u16 => "certain"@,
        46u16 => "chair"@,
        47u16 => "chalk"@,
        48u16 => "champion"@,
        49u16 => "change"@,
        50u16 => "chaos"@,
        51u16 => "chapter"@,
        52u16 => "charge"@,
        53u16 => "chase"@,
        54u16 => "chat"@,
        55u16 => "cheap"@,
        56u16 => "check"@,
        57u16 => "cheese"@,
        58u16 => "chef"@,
        59u16 => "cherry"@,
        60u16 => "chest"@,
        61u16 => "chicken"@,
        62u16 => "chief"@,
        63u16 => "child"@,
        _ => Seq::empty(),
    }
}

/// Words 320 to 383 of the English list.
#[verifier::opaque]
pub open spec fn list_block_5(j: u16) -> Seq<char> {
    match j {
        0u16 => "chimney"@,
        1u16 => "choice"@,
        2u16 => "choose"@,
        3u16 => "chronic"@,
        4u16 => "chuckle"@,
        5u16 => "chunk"@,
        6u16 => "churn"@,
        7u16 => "cigar"@,
        8u16 => "cinnamon"@,
        9u16 => "circle"@,
        10u16 => "citizen"@,
        11u16 => "city"@,
        12u16 => "civil"@,
        13u16 => "claim"@,
        14u16 => "clap"@,
        15u16 => "clarify"@,
        16u16 => "claw"@,
        17u16 => "clay"@,
        18u16 => "clean"@,
        19u16 => "clerk"@,
        20u16 => "clever"@,
        21u16 => "click"@,
        22u16 => "client"@,
        23u16 => "cliff"@,
        24u16 => "climb"@,
        25u16 => "clinic"@,
        26u16 => "clip"@,
        27u16 => "clock"@,
        28u16 => "clog"@,
        29u16 => "close"@,
        30u16 => "cloth"@,
        31u16 => "cloud"@,
        32u16 => "clown"@,
        33u16 => "club"@,
        34u16 => "clump"@,
        35u16 => "cluster"@,
        36u16 => "clutch"@,
        37u16 => "coach"@,
        38u16 => "coast"@,
        39u16 => "coconut"@,
        40u16 => "code"@,
        41u16 => "coffee"@,
        42u16 => "coil"@,
        43u16 => "coin"@,
        44u16 => "collect"@,
        45u16 => "color"@,
        46u16 => "column"@,
        47u16 => "combine"@,
        48u16 => "come"@,
        49u16 => "comfort"@,
        50u16 => "comic"@,
        51u16 => "common"@,
        52u16 => "company"@,
        53u16 => "concert"@,
        54u16 => "conduct"@,
        55u16 => "confirm"@,
        56u16 => "congress"@,
        57u16 => "connect"@,
        58u16 => "consider"@,
        59u16 => "control"@,
        60u16 => "convince"@,
        61u16 => "cook"@,
        62u16 => "cool"@,
        63u16 => "copper"@,
        _ => Seq::empty(),
    }
}

/// Words 384 to 447 of the English list.
#[verifier::opaque]
pub open spec fn list_block_6(j: u16) -> Seq<char> {
    match j {
        0u16 => "copy"@,
        1u16 => "coral"@,
        2u16 => "core"@,
        3u16 => "corn"@,
        4u16 => "correct"@,
        5u16 => "cost"@,
        6u16 => "cotton"@,
        7u16 => "couch"@,
        8u16 => "country"@,
        9u16 => "couple"@,
        10u16 => "course"@,
        11u16 => "cousin"@,
        12u16 => "cover"@,
        13u16 => "coyote"@,
        14u16 => "crack"@,
        15u16 => "cradle"@,
        16u16 => "craft"@,
        17u16 => "cram"@,
        18u16 => "crane"@,
        19u16 => "crash"@,
        20u16 => "crater"@,
        21u16 => "crawl"@,
        22u16 => "crazy"@,
        23u16 => "cream"@,
        24u16 => "credit"@,
        25u16 => "creek"@,
        26u16 => "crew"@,
        27u16 => "cricket"@,
        28u16 => "crime"@,
        29u16 => "crisp"@,
        30u16 => "critic"@,
        31u16 => "crop"@,
        32u16 => "cross"@,
        33u16 => "crouch"@,
        34u16 => "crowd"@,
        35u16 => "crucial"@,
        36u16 => "cruel"@,
        37u16 => "cruise"@,
        38u16 => "crumble"@,
        39u16 => "crunch"@,
        40u16 => "crush"@,
        41u16 => "cry"@,
        42u16 => "crystal"@,
        43u16 => "cube"@,
        44u16 => "culture"@,
        45u16 => "cup"@,
        46u16 => "cupboard"@,
        47u16 => "curious"@,
        48u16 => "current"@,
        49u16 => "curtain"@,
        50u16 => "curve"@,
        51u16 => "cushion"@,
        52u16 => "custom"@,
        53u16 => "cute"@,
        54u16 => "cycle"@,
        55u16 => "dad"@,
        56u16 => "damage"@,
        57u16 => "damp"@,
        58u16 => "dance"@,
        59u16 => "danger"@,
        60u16 => "daring"@,
        61u16 => "dash"@,
        62u16 => "daughter"@,
        63u16 => "dawn"@,
        _ => Seq::empty(),
    }
}

/// Words 448 to 511 of the English list.
#[verifier::opaque]
pub open spec fn list_block_7(j: u16) -> Seq<char> {
    match j {
        0u16 => "day"@,
        1u16 => "deal"@,
        2u16 => "debate"@,
        3u16 => "debris"@,
        4u16 => "decade"@,
        5u16 => "december"@,
        6u16 => "decide"@,
        7u16 => "decline"@,
        8u16 => "decorate"@,
        9u16 => "decrease"@,
        10u16 => "deer"@,
        11u16 => "defense"@,
        12u16 => "define"@,
        13u16 => "defy"@,
        14u16 => "degree"@,
        15u16 => "delay"@,
        16u16 => "deliver"@,
        17u16 => "demand"@,
        18u16 => "demise"@,
        19u16 => "denial"@,
        20u16 => "dentist"@,
        21u16 => "deny"@,
        22u16 => "depart"@,
        23u16 => "depend"@,
        24u16 => "deposit"@,
        25u16 => "depth"@,
        26u16 => "deputy"@,
        27u16 => "derive"@,
        28u16 => "describe"@,
        29u16 => "desert"@,
        30u16 => "design"@,
        31u16 => "desk"@,
        32u16 => "despair"@,
        33u16 => "destroy"@,
        34u16 => "detail"@,
        35u16 => "detect"@,
        36u16 => "develop"@,
        37u16 => "device"@,
        38u16 => "devote"@,
        39u16 => "diagram"@,
        40u16 => "dial"@,
        41u16 => "diamond"@,
        42u16 => "diary"@,
        43u16 => "dice"@,
        44u16 => "diesel"@,
        45u16 => "diet"@,
        46u16 => "differ"@,
        47u16 => "digital"@,
        48u16 => "dignity"@,
        49u16 => "dilemma"@,
        50u16 => "dinner"@,
        51u16 => "dinosaur"@,
        52u16 => "direct"@,
        53u16 => "dirt"@,
        54u16 => "disagree"@,
        55u16 => "discover"@,
        56u16 => "disease"@,
        57u16 => "dish"@,
        58u16 => "dismiss"@,
        59u16 => "disorder"@,
        60u16 => "display"@,
        61u16 => "distance"@,
        62u16 => "divert"@,
        63u16 => "divide"@,
        _ => Seq::empty(),
    }
}

/// Words 512 to 575 of the English list.
#[verifier::opaque]
pub open spec fn list_block_8(j: u16) -> Seq<char> {
    match j {
        0u16 => "divorce"@,
        1u16 => "dizzy"@,
        2u16 => "doctor"@,
        3u16 => "document"@,
        4u16 => "dog"@,
        5u16 => "doll"@,
        6u16 => "dolphin"@,
        7u16 => "domain"@,
        8u16 => "donate"@,
        9u16 => "donkey"@,
        10u16 => "donor"@,
        11u16 => "door"@,
        12u16 => "dose"@,
        13u16 => "double"@,
        14u16 => "dove"@,
        15u16 => "draft"@,
        16u16 => "dragon"@,
        17u16 => "drama"@,
        18u16 => "drastic"@,
        19u16 => "draw"@,
        20u16 => "dream"@,
        21u16 => "dress"@,
        22u16 => "drift"@,
        23u16 => "drill"@,
        24u16 => "drink"@,
        25u16 => "drip"@,
        26u16 => "drive"@,
        27u16 => "drop"@,
        28u16 => "drum"@,
        29u16 => "dry"@,
        30u16 => "duck"@,
        31u16 => "dumb"@,
        32u16 => "dune"@,
        33u16 => "during"@,
        34u16 => "dust"@,
        35u16 => "dutch"@,
        36u16 => "duty"@,
        37u16 => "dwarf"@,
        38u16 => "dynamic"@,
        39u16 => "eager"@,
        40u16 => "eagle"@,
        41u16 => "early"@,
        42u16 => "earn"@,
        43u16 => "earth"@,
        44u16 => "easily"@,
        45u16 => "east"@,
        46u16 => "easy"@,
        47u16 => "echo"@,
        48u16 => "ecology"@,
        49u16 => "economy"@,
        50u16 => "edge"@,
        51u16 => "edit"@,
        52u16 => "educate"@,
        53u16 => "effort"@,
        54u16 => "egg"@,
        55u16 => "eight"@,
        56u16 => "either"@,
        57u16 => "elbow"@,
        58u16 => "elder"@,
        59u16 => "electric"@,
        60u16 => "elegant"@,
        61u16 => "element"@,
        62u16 => "elephant"@,
        63u16 => "elevator"@,
        _ => Seq::empty(),
    }
}

/// Words 576 to 639 of the English list.
#[verifier::opaque]
pub open spec fn list_block_9(j: u16) -> Seq<char> {
    match j {
        0u16 => "elite"@,
        1u16 => "else"@,
        2u16 => "embark"@,
        3u16 => "embody"@,
        4u16 => "embrace"@,
        5u16 => "emerge"@,
        6u16 => "emotion"@,
        7u16 => "employ"@,
        8u16 => "empower"@,
        9u16 => "empty"@,
        10u16 => "enable"@,
        11u16 => "enact"@,
        12u16 => "end"@,
        13u16 => "endless"@,
        14u16 => "endorse"@,
        15u16 => "enemy"@,
        16u16 => "energy"@,
        17u16 => "enforce"@,
        18u16 => "engage"@,
        19u16 => "engine"@,
        20u16 => "enhance"@,
        21u16 => "enjoy"@,
        22u16 => "enlist"@,
        23u16 => "enough"@,
        24u16 => "enrich"@,
        25u16 => "enroll"@,
        26u16 => "ensure"@,
        27u16 => "enter"@,
        28u16 => "entire"@,
        29u16 => "entry"@,
        30u16 => "envelope"@,
        31u16 => "episode"@,
        32u16 => "equal"@,
        33u16 => "equip"@,
        34u16 => "era"@,
        35u16 => "erase"@,
        36u16 => "erode"@,
        37u16 => "erosion"@,
        38u16 => "error"@,
        39u16 => "erupt"@,
        40u16 => "escape"@,
        41u16 => "essay"@,
        42u16 => "essence"@,
        43u16 => "estate"@,
        44u16 => "eternal"@,
        45u16 => "ethics"@,
        46u16 => "evidence"@,
        47u16 => "evil"@,
        48u16 => "evoke"@,
        49u16 => "evolve"@,
        50u16 => "exact"@,
        51u16 => "example"@,
        52u16 => "excess"@,
        53u16 => "exchange"@,
        54u16 => "excite"@,
        55u16 => "exclude"@,
        56u16 => "excuse"@,
        57u16 => "execute"@,
        58u16 => "exercise"@,
        59u16 => "exhaust"@,
        60u16 => "exhibit"@,
        61u16 => "exile"@,
        62u16 => "exist"@,
        63u16 => "exit"@,
        _ => Seq::empty(),
    }
}

/// Words 640 to 703 of the English list.
#[verifier::opaque]
pub open spec fn list_block_10(j: u16) -> Seq<char> {
    match j {
        0u16 => "exotic"@,
        1u16 => "expand"@,
        2u16 => "expect"@,
        3u16 => "expire"@,
        4u16 => "explain"@,
        5u16 => "expose"@,
        6u16 => "express"@,
        7u16 => "extend"@,
        8u16 => "extra"@,
        9u16 => "eye"@,
        10u16 => "eyebrow"@,
        11u16 => "fabric"@,
        12u16 => "face"@,
        13u16 => "faculty"@,
        14u16 => "fade"@,
        15u16 => "faint"@,
        16u16 => "faith"@,
        17u16 => "fall"@,
        18u16 => "false"@,
        19u16 => "fame"@,
        20u16 => "family"@,
        21u16 => "famous"@,
        22u16 => "fan"@,
        23u16 => "fancy"@,
        24u16 => "fantasy"@,
        25u16 => "farm"@,
        26u16 => "fashion"@,
        27u16 => "fat"@,
        28u16 => "fatal"@,
        29u16 => "father"@,
        30u16 => "fatigue"@,
        31u16 => "fault"@,
        32u16 => "favorite"@,
        33u16 => "feature"@,
        34u16 => "february"@,
        35u16 => "federal"@,
        36u16 => "fee"@,
        37u16 => "feed"@,
        38u16 => "feel"@,
        39u16 => "female"@,
        40u16 => "fence"@,
        41u16 => "festival"@,
        42u16 => "fetch"@,
        43u16 => "fever"@,
        44u16 => "few"@,
        45u16 => "fiber"@,
        46u16 => "fiction"@,
        47u16 => "field"@,
        48u16 => "figure"@,
        49u16 => "file"@,
        50u16 => "film"@,
        51u16 => "filter"@,
        52u16 => "final"@,
        53u16 => "find"@,
        54u16 => "fine"@,
        55u16 => "finger"@,
        56u16 => "finish"@,
        57u16 => "fire"@,
        58u16 => "firm"@,
        59u16 => "first"@,
        60u16 => "fiscal"@,
        61u16 => "fish"@,
        62u16 => "fit"@,
        63u16 => "fitness"@,
        _ => Seq::empty(),
    }
}

/// Words 704 to 767 of the English list.
#[verifier::opaque]
pub open spec fn list_block_11(j: u16) -> Seq<char> {
    match j {
        0u16 => "fix"@,
        1u16 => "flag"@,
        2u16 => "flame"@,
        3u16 => "flash"@,
        4u16 => "flat"@,
        5u16 => "flavor"@,
        6u16 => "flee"@,
        7u16 => "flight"@,
        8u16 => "flip"@,
        9u16 => "float"@,
        10u16 => "flock"@,
        11u16 => "floor"@,
        12u16 => "flower"@,
        13u16 => "fluid"@,
        14u16 => "flush"@,
        15u16 => "fly"@,
        16u16 => "foam"@,
        17u16 => "focus"@,
        18u16 => "fog"@,
        19u16 => "foil"@,
        20u16 => "fold"@,
        21u16 => "follow"@,
        22u16 => "food"@,
        23u16 => "foot"@,
        24u16 => "force"@,
        25u16 => "forest"@,
        26u16 => "forget"@,
        27u16 => "fork"@,
        28u16 => "fortune"@,
        29u16 => "forum"@,
        30u16 => "forward"@,
        31u16 => "fossil"@,
        32u16 => "foster"@,
        33u16 => "found"@,
        34u16 => "fox"@,
        35u16 => "fragile"@,
        36u16 => "frame"@,
        37u16 => "frequent"@,
        38u16 => "fresh"@,
        39u16 => "friend"@,
        40u16 => "fringe"@,
        41u16 => "frog"@,
        42u16 => "front"@,
        43u16 => "frost"@,
        44u16 => "frown"@,
        45u16 => "frozen"@,
        46u16 => "fruit"@,
        47u16 => "fuel"@,
        48u16 => "fun"@,
        49u16 => "funny"@,
        50u16 => "furnace"@,
        51u16 => "fury"@,
        52u16 => "future"@,
        53u16 => "gadget"@,
        54u16 => "gain"@,
        55u16 => "galaxy"@,
        56u16 => "gallery"@,
        57u16 => "game"@,
        58u16 => "gap"@,
        59u16 => "garage"@,
        60u16 => "garbage"@,
        61u16 => "garden"@,
        62u16 => "garlic"@,
        63u16 => "garment"@,
        _ => Seq::empty(),
    }
}

/// Words 768 to 831 of the English list.
#[verifier::opaque]
pub open spec fn list_block_12(j: u16) -> Seq<char> {
    match j {
        0u16 => "gas"@,
        1u16 => "gasp"@,
        2u16 => "gate"@,
        3u16 => "gather"@,
        4u16 => "gauge"@,
        5u16 => "gaze"@,
        6u16 => "general"@,
        7u16 => "genius"@,
        8u16 => "genre"@,
        9u16 => "gentle"@,
        10u16 => "genuine"@,
        11u16 => "gesture"@,
        12u16 => "ghost"@,
        13u16 => "giant"@,
        14u16 => "gift"@,
        15u16 => "giggle"@,
        16u16 => "ginger"@,
        17u16 => "giraffe"@,
        18u16 => "girl"@,
        19u16 => "give"@,
        20u16 => "glad"@,
        21u16 => "glance"@,
        22u16 => "glare"@,
        23u16 => "glass"@,
        24u16 => "glide"@,
        25u16 => "glimpse"@,
        26u16 => "globe"@,
        27u16 => "gloom"@,
        28u16 => "glory"@,
        29u16 => "glove"@,
        30u16 => "glow"@,
        31u16 => "glue"@,
        32u16 => "goat"@,
        33u16 => "goddess"@,
        34u16 => "gold"@,
        35u16 => "good"@,
        36u16 => "goose"@,
        37u16 => "gorilla"@,
        38u16 => "gospel"@,
        39u16 => "gossip"@,
        40u16 => "govern"@,
        41u16 => "gown"@,
        42u16 => "grab"@,
        43u16 => "grace"@,
        44u16 => "grain"@,
        45u16 => "grant"@,
        46u16 => "grape"@,
        47u16 => "grass"@,
        48u16 => "gravity"@,
        49u16 => "great"@,
        50u16 => "green"@,
        51u16 => "grid"@,
        52u16 => "grief"@,
        53u16 => "grit"@,
        54u16 => "grocery"@,
        55u16 => "group"@,
        56u16 => "grow"@,
        57u16 => "grunt"@,
        58u16 => "guard"@,
        59u16 => "guess"@,
        60u16 => "guide"@,
        61u16 => "guilt"@,
        62u16 => "guitar"@,
        63u16 => "gun"@,
        _ => Seq::empty(),
    }
}

/// Words 832 to 895 of the English list.
#[verifier::opaque]
pub open spec fn list_block_13(j: u16) -> Seq<char> {
    match j {
        0u16 => "gym"@,
        1u16 => "habit"@,
        2u16 => "hair"@,
        3u16 => "half"@,
        4u16 => "hammer"@,
        5u16 => "hamster"@,
        6u16 => "hand"@,
        7u16 => "happy"@,
        8u16 => "harbor"@,
        9u16 => "hard"@,
        10u16 => "harsh"@,
        11u16 => "harvest"@,
        12u16 => "hat"@,
        13u16 => "have"@,
        14u16 => "hawk"@,
        15u16 => "hazard"@,
        16u16 => "head"@,
        17u16 => "health"@,
        18u16 => "heart"@,
        19u16 => "heavy"@,
        20u16 => "hedgehog"@,
        21u16 => "height"@,
        22u16 => "hello"@,
        23u16 => "helmet"@,
        24u16 => "help"@,
        25u16 => "hen"@,
        26u16 => "hero"@,
        27u16 => "hidden"@,
        28u16 => "high"@,
        29u16 => "hill"@,
        30u16 => "hint"@,
        31u16 => "hip"@,
        32u16 => "hire"@,
        33u16 => "history"@,
        34u16 => "hobby"@,
        35u16 => "hockey"@,
        36u16 => "hold"@,
        37u16 => "hole"@,
        38u16 => "holiday"@,
        39u16 => "hollow"@,
        40u16 => "home"@,
        41u16 => "honey"@,
        42u16 => "hood"@,
        43u16 => "hope"@,
        44u16 => "horn"@,
        45u16 => "horror"@,
        46u16 => "horse"@,
        47u16 => "hospital"@,
        48u16 => "host"@,
        49u16 => "hotel"@,
        50u16 => "hour"@,
        51u16 => "hover"@,
        52u16 => "hub"@,
        53u16 => "huge"@,
        54u16 => "human"@,
        55u16 => "humble"@,
        56u16 => "humor"@,
        57u16 => "hundred"@,
        58u16 => "hungry"@,
        59u16 => "hunt"@,
        60u16 => "hurdle"@,
        61u16 => "hurry"@,
        62u16 => "hurt"@,
        63u16 => "husband"@,
        _ => Seq::empty(),
    }
}

/// Words 896 to 959 of the English list.
#[verifier::opaque]
pub open spec fn list_block_14(j: u16) -> Seq<char> {
    match j {
        0u16 => "hybrid"@,
        1u16 => "ice"@,
        2u16 => "icon"@,
        3u16 => "idea"@,
        4u16 => "identify"@,
        5u16 => "idle"@,
        6u16 => "ignore"@,
        7u16 => "ill"@,
        8u16 => "illegal"@,
        9u16 => "illness"@,
        10u16 => "image"@,
        11u16 => "imitate"@,
        12u16 => "immense"@,
        13u16 => "immune"@,
        14u16 => "impact"@,
        15u16 => "impose"@,
        16u16 => "improve"@,
        17u16 => "impulse"@,
        18u16 => "inch"@,
        19u16 => "include"@,
        20u16 => "income"@,
        21u16 => "increase"@,
        22u16 => "index"@,
        23u16 => "indicate"@,
        24u16 => "indoor"@,
        25u16 => "industry"@,
        26u16 => "infant"@,
        27u16 => "inflict"@,
        28u16 => "inform"@,
        29u16 => "inhale"@,
        30u16 => "inherit"@,
        31u16 => "initial"@,
        32u16 => "inject"@,
        33u16 => "injury"@,
        34u16 => "inmate"@,
        35u16 => "inner"@,
        36u16 => "innocent"@,
        37u16 => "input"@,
        38u16 => "inquiry"@,
        39u16 => "insane"@,
        40u16 => "insect"@,
        41u16 => "inside"@,
        42u16 => "inspire"@,
        43u16 => "install"@,
        44u16 => "intact"@,
        45u16 => "interest"@,
        46u16 => "into"@,
        47u16 => "invest"@,
        48u16 => "invite"@,
        49u16 => "involve"@,
        50u16 => "iron"@,
        51u16 => "island"@,
        52u16 => "isolate"@,
        53u16 => "issue"@,
        54u16 => "item"@,
        55u16 => "ivory"@,
        56u16 => "jacket"@,
        57u16 => "jaguar"@,
        58u16 => "jar"@,
        59u16 => "jazz"@,
        60u16 => "jealous"@,
        61u16 => "jeans"@,
        62u16 => "jelly"@,
        63u16 => "jewel"@,
        _ => Seq::empty(),
    }
}

/// Words 960 to 1023 of the English list.
#[verifier::opaque]
pub open spec fn list_block_15(j: u16) -> Seq<char> {
    match j {
        0u16 => "job"@,
        1u16 => "join"@,
        2u16 => "joke"@,
        3u16 => "journey"@,
        4u16 => "joy"@,
        5u16 => "judge"@,
        6u16 => "juice"@,
        7u16 => "jump"@,
        8u16 => "jungle"@,
        9u16 => "junior"@,
        10u16 => "junk"@,
        11u16 => "just"@,
        12u16 => "kangaroo"@,
        13u16 => "keen"@,
        14u16 => "keep"@,
        15u16 => "ketchup"@,
        16u16 => "key"@,
        17u16 => "kick"@,
        18u16 => "kid"@,
        19u16 => "kidney"@,
        20u16 => "kind"@,
        21u16 => "kingdom"@,
        22u16 => "kiss"@,
        23u16 => "kit"@,
        24u16 => "kitchen"@,
        25u16 => "kite"@,
        26u16 => "kitten"@,
        27u16 => "kiwi"@,
        28u16 => "knee"@,
        29u16 => "knife"@,
        30u16 => "knock"@,
        31u16 => "know"@,
        32u16 => "lab"@,
        33u16 => "label"@,
        34u16 => "labor"@,
        35u16 => "ladder"@,
        36u16 => "lady"@,
        37u16 => "lake"@,
        38u16 => "lamp"@,
        39u16 => "language"@,
        40u16 => "laptop"@,
        41u16 => "large"@,
        42u16 => "later"@,
        43u16 => "latin"@,
        44u16 => "laugh"@,
        45u16 => "laundry"@,
        46u16 => "lava"@,
        47u16 => "law"@,
        48u16 => "lawn"@,
        49u16 => "lawsuit"@,
        50u16 => "layer"@,
        51u16 => "lazy"@,
        52u16 => "leader"@,
        53u16 => "leaf"@,
        54u16 => "learn"@,
        55u16 => "leave"@,
        56u16 => "lecture"@,
        57u16 => "left"@,
        58u16 => "leg"@,
        59u16 => "legal"@,
        60u16 => "legend"@,
        61u16 => "leisure"@,
        62u16 => "lemon"@,
        63u16 => "lend"@,
        _ => Seq::empty(),
    }
}

/// Words 1024 to 1087 of the English list.
#[verifier::opaque]
pub open spec fn list_block_16(j: u16) -> Seq<char> {
    match j {
        0u16 => "length"@,
        1u16 => "lens"@,
        2u16 => "leopard"@,
        3u16 => "lesson"@,
        4u16 => "letter"@,
        5u16 => "level"@,
        6u16 => "liar"@,
        7u16 => "liberty"@,
        8u16 => "library"@,
        9u16 => "license"@,
        10u16 => "life"@,
        11u16 => "lift"@,
        12u16 => "light"@,
        13u16 => "like"@,
        14u16 => "limb"@,
        15u16 => "limit"@,
        16u16 => "link"@,
        17u16 => "lion"@,
        18u16 => "liquid"@,
        19u16 => "list"@,
        20u16 => "little"@,
        21u16 => "live"@,
        22u16 => "lizard"@,
        23u16 => "load"@,
        24u16 => "loan"@,
        25u16 => "lobster"@,
        26u16 => "local"@,
        27u16 => "lock"@,
        28u16 => "logic"@,
        29u16 => "lonely"@,
        30u16 => "long"@,
        31u16 => "loop"@,
        32u16 => "lottery"@,
        33u16 => "loud"@,
        34u16 => "lounge"@,
        35u16 => "love"@,
        36u16 => "loyal"@,
        37u16 => "lucky"@,
        38u16 => "luggage"@,
        39u16 => "lumber"@,
        40u16 => "lunar"@,
        41u16 => "lunch"@,
        42u16 => "luxury"@,
        43u16 => "lyrics"@,
        44u16 => "machine"@,
        45u16 => "mad"@,
        46u16 => "magic"@,
        47u16 => "magnet"@,
        48u16 => "maid"@,
        49u16 => "mail"@,
        50u16 => "main"@,
        51u16 => "major"@,
        52u16 => "make"@,
        53u16 => "mammal"@,
        54u16 => "man"@,
        55u16 => "manage"@,
        56u16 => "mandate"@,
        57u16 => "mango"@,
        58u16 => "mansion"@,
        59u16 => "manual"@,
        60u16 => "maple"@,
        61u16 => "marble"@,
        62u16 => "march"@,
        63u16 => "margin"@,
        _ => Seq::empty(),
    }
}

/// Words 1088 to 1151 of the English list.
#[verifier::opaque]
pub open spec fn list_block_17(j: u16) -> Seq<char> {
    match j {
        0u16 => "marine"@,
        1u16 => "market"@,
        2u16 => "marriage"@,
        3u16 => "mask"@,
        4u16 => "mass"@,
        5u16 => "master"@,
        6u16 => "match"@,
        7u16 => "material"@,
        8u16 => "math"@,
        9u16 => "matrix"@,
        10u16 => "matter"@,
        11u16 => "maximum"@,
        12u16 => "maze"@,
        13u16 => "meadow"@,
        14u16 => "mean"@,
        15u16 => "measure"@,
        16u16 => "meat"@,
        17u16 => "mechanic"@,
        18u16 => "medal"@,
        19u16 => "media"@,
        20u16 => "melody"@,
        21u16 => "melt"@,
        22u16 => "member"@,
        23u16 => "memory"@,
        24u16 => "mention"@,
        25u16 => "menu"@,
        26u16 => "mercy"@,
        27u16 => "merge"@,
        28u16 => "merit"@,
        29u16 => "merry"@,
        30u16 => "mesh"@,
        31u16 => "message"@,
        32u16 => "metal"@,
        33u16 => "method"@,
        34u16 => "middle"@,
        35u16 => "midnight"@,
        36u16 => "milk"@,
        37u16 => "million"@,
        38u16 => "mimic"@,
        39u16 => "mind"@,
        40u16 => "minimum"@,
        41u16 => "minor"@,
        42u16 => "minute"@,
        43u16 => "miracle"@,
        44u16 => "mirror"@,
        45u16 => "misery"@,
        46u16 => "miss"@,
        47u16 => "mistake"@,
        48u16 => "mix"@,
        49u16 => "mixed"@,
        50u16 => "mixture"@,
        51u16 => "mobile"@,
        52u16 => "model"@,
        53u16 => "modify"@,
        54u16 => "mom"@,
        55u16 => "moment"@,
        56u16 => "monitor"@,
        57u16 => "monkey"@,
        58u16 => "monster"@,
        59u16 => "month"@,
        60u16 => "moon"@,
        61u16 => "moral"@,
        62u16 => "more"@,
        63u16 => "morning"@,
        _ => Seq::empty(),
    }
}

/// Words 1152 to 1215 of the English list.
#[verifier::opaque]
pub open spec fn list_block_18(j: u16) -> Seq<char> {
    match j {
        0u16 => "mosquito"@,
        1u16 => "mother"@,
        2u16 => "motion"@,
        3u16 => "motor"@,
        4u16 => "mountain"@,
        5u16 => "mouse"@,
        6u16 => "move"@,
        7u16 => "movie"@,
        8u16 => "much"@,
        9u16 => "muffin"@,
        10u16 => "mule"@,
        11u16 => "multiply"@,
        12u16 => "muscle"@,
        13u16 => "museum"@,
        14u16 => "mushroom"@,
        15u16 => "music"@,
        16u16 => "must"@,
        17u16 => "mutual"@,
        18u16 => "myself"@,
        19u16 => "mystery"@,
        20u16 => "myth"@,
        21u16 => "naive"@,
        22u16 => "name"@,
        23u16 => "napkin"@,
        24u16 => "narrow"@,
        25u16 => "nasty"@,
        26u16 => "nation"@,
        27u16 => "nature"@,
        28u16 => "near"@,
        29u16 => "neck"@,
        30u16 => "need"@,
        31u16 => "negative"@,
        32u16 => "neglect"@,
        33u16 => "neither"@,
        34u16 => "nephew"@,
        35u16 => "nerve"@,
        36u16 => "nest"@,
        37u16 => "net"@,
        38u16 => "network"@,
        39u16 => "neutral"@,
        40u16 => "never"@,
        41u16 => "news"@,
        42u16 => "next"@,
        43u16 => "nice"@,
        44u16 => "night"@,
        45u16 => "noble"@,
        46u16 => "noise"@,
        47u16 => "nominee"@,
        48u16 => "noodle"@,
        49u16 => "normal"@,
        50u16 => "north"@,
        51u16 => "nose"@,
        52u16 => "notable"@,
        53u16 => "note"@,
        54u16 => "nothing"@,
        55u16 => "notice"@,
        56u16 => "novel"@,
        57u16 => "now"@,
        58u16 => "nuclear"@,
        59u16 => "number"@,
        60u16 => "nurse"@,
        61u16 => "nut"@,
        62u16 => "oak"@,
        63u16 => "obey"@,
        _ => Seq::empty(),
    }
}

/// Words 1216 to 1279 of the English list.
#[verifier::opaque]
pub open spec fn list_block_19(j: u16) -> Seq<char> {
    match j {
        0u16 => "object"@,
        1u16 => "oblige"@,
        2u16 => "obscure"@,
        3u16 => "observe"@,
        4u16 => "obtain"@,
        5u16 => "obvious"@,
        6u16 => "occur"@,
        7u16 => "ocean"@,
        8u16 => "october"@,
        9u16 => "odor"@,
        10u16 => "off"@,
        11u16 => "offer"@,
        12u16 => "office"@,
        13u16 => "often"@,
        14u16 => "oil"@,
        15u16 => "okay"@,
        16u16 => "old"@,
        17u16 => "olive"@,
        18u16 => "olympic"@,
        19u16 => "omit"@,
        20u16 => "once"@,
        21u16 => "one"@,
        22u16 => "onion"@,
        23u16 => "online"@,
        24u16 => "only"@,
        25u16 => "open"@,
        26u16 => "opera"@,
        27u16 => "opinion"@,
        28u16 => "oppose"@,
        29u16 => "option"@,
        30u16 => "orange"@,
        31u16 => "orbit"@,
        32u16 => "orchard"@,
        33u16 => "order"@,
        34u16 => "ordinary"@,
        35u16 => "organ"@,
        36u16 => "orient"@,
        37u16 => "original"@,
        38u16 => "orphan"@,
        39u16 => "ostrich"@,
        40u16 => "other"@,
        41u16 => "outdoor"@,
        42u16 => "outer"@,
        43u16 => "output"@,
        44u16 => "outside"@,
        45u16 => "oval"@,
        46u16 => "oven"@,
        47u16 => "over"@,
        48u16 => "own"@,
        49u16 => "owner"@,
        50u16 => "oxygen"@,
        51u16 => "oyster"@,
        52u16 => "ozone"@,
        53u16 => "pact"@,
        54u16 => "paddle"@,
        55u16 => "page"@,
        56u16 => "pair"@,
        57u16 => "palace"@,
        58u16 => "palm"@,
        59u16 => "panda"@,
        60u16 => "panel"@,
        61u16 => "panic"@,
        62u16 => "panther"@,
        63u16 => "paper"@,
        _ => Seq::empty(),
    }
}

/// Words 1280 to 1343 of the English list.
#[verifier::opaque]
pub open spec fn list_block_20(j: u16) -> Seq<char> {
    match j {
        0u16 => "parade"@,
        1u16 => "parent"@,
        2u16 => "park"@,
        3u16 => "parrot"@,
        4u16 => "party"@,
        5u16 => "pass"@,
        6u16 => "patch"@,
        7u16 => "path"@,
        8u16 => "patient"@,
        9u16 => "patrol"@,
        10u16 => "pattern"@,
        11u16 => "pause"@,
        12u16 => "pave"@,
        13u16 => "payment"@,
        14u16 => "peace"@,
        15u16 => "peanut"@,
        16u16 => "pear"@,
        17u16 => "peasant"@,
        18u16 => "pelican"@,
        19u16 => "pen"@,
        20u16 => "penalty"@,
        21u16 => "pencil"@,
        22u16 => "people"@,
        23u16 => "pepper"@,
        24u16 => "perfect"@,
        25u16 => "permit"@,
        26u16 => "person"@,
        27u16 => "pet"@,
        28u16 => "phone"@,
        29u16 => "photo"@,
        30u16 => "phrase"@,
        31u16 => "physical"@,
        32u16 => "piano"@,
        33u16 => "picnic"@,
        34u16 => "picture"@,
        35u16 => "piece"@,
        36u16 => "pig"@,
        37u16 => "pigeon"@,
        38u16 => "pill"@,
        39u16 => "pilot"@,
        40u16 => "pink"@,
        41u16 => "pioneer"@,
        42u16 => "pipe"@,
        43u16 => "pistol"@,
        44u16 => "pitch"@,
        45u16 => "pizza"@,
        46u16 => "place"@,
        47u16 => "planet"@,
        48u16 => "plastic"@,
        49u16 => "plate"@,
        50u16 => "play"@,
        51u16 => "please"@,
        52u16 => "pledge"@,
        53u16 => "pluck"@,
        54u16 => "plug"@,
        55u16 => "plunge"@,
        56u16 => "poem"@,
        57u16 => "poet"@,
        58u16 => "point"@,
        59u16 => "polar"@,
        60u16 => "pole"@,
        61u16 => "police"@,
        62u16 => "pond"@,
        63u16 => "pony"@,
        _ => Seq::empty(),
    }
}

/// Words 1344 to 1407 of the English list.
#[verifier::opaque]
pub open spec fn list_block_21(j: u16) -> Seq<char> {
    match j {
        0u16 => "pool"@,
        1u16 => "popular"@,
        2u16 => "portion"@,
        3u16 => "position"@,
        4u16 => "possible"@,
        5u16 => "post"@,
        6u16 => "potato"@,
        7u16 => "pottery"@,
        8u16 => "poverty"@,
        9u16 => "powder"@,
        10u16 => "power"@,
        11u16 => "practice"@,
        12u16 => "praise"@,
        13u16 => "predict"@,
        14u16 => "prefer"@,
        15u16 => "prepare"@,
        16u16 => "present"@,
        17u16 => "pretty"@,
        18u16 => "prevent"@,
        19u16 => "price"@,
        20u16 => "pride"@,
        21u16 => "primary"@,
        22u16 => "print"@,
        23u16 => "priority"@,
        24u16 => "prison"@,
        25u16 => "private"@,
        26u16 => "prize"@,
        27u16 => "problem"@,
        28u16 => "process"@,
        29u16 => "produce"@,
        30u16 => "profit"@,
        31u16 => "program"@,
        32u16 => "project"@,
        33u16 => "promote"@,
        34u16 => "proof"@,
        35u16 => "property"@,
        36u16 => "prosper"@,
        37u16 => "protect"@,
        38u16 => "proud"@,
        39u16 => "provide"@,
        40u16 => "public"@,
        41u16 => "pudding"@,
        42u16 => "pull"@,
        43u16 => "pulp"@,
        44u16 => "pulse"@,
        45u16 => "pumpkin"@,
        46u16 => "punch"@,
        47u16 => "pupil"@,
        48u16 => "puppy"@,
        49u16 => "purchase"@,
        50u16 => "purity"@,
        51u16 => "purpose"@,
        52u16 => "purse"@,
        53u16 => "push"@,
        54u16 => "put"@,
        55u16 => "puzzle"@,
        56u16 => "pyramid"@,
        57u16 => "quality"@,
        58u16 => "quantum"@,
        59u16 => "quarter"@,
        60u16 => "question"@,
        61u16 => "quick"@,
        62u16 => "quit"@,
        63u16 => "quiz"@,
        _ => Seq::empty(),
    }
}

/// Words 1408 to 1471 of the English list.
#[verifier::opaque]
pub open spec fn list_block_22(j: u16) -> Seq<char> {
    match j {
        0u16 => "quote"@,
        1u16 => "rabbit"@,
        2u16 => "raccoon"@,
        3u16 => "race"@,
        4u16 => "rack"@,
        5u16 => "radar"@,
        6u16 => "radio"@,
        7u16 => "rail"@,
        8u16 => "rain"@,
        9u16 => "raise"@,
        10u16 => "rally"@,
        11u16 => "ramp"@,
        12u16 => "ranch"@,
        13u16 => "random"@,
        14u16 => "range"@,
        15u16 => "rapid"@,
        16u16 => "rare"@,
        17u16 => "rate"@,
        18u16 => "rather"@,
        19u16 => "raven"@,
        20u16 => "raw"@,
        21u16 => "razor"@,
        22u16 => "ready"@,
        23u16 => "real"@,
        24u16 => "reason"@,
        25u16 => "rebel"@,
        26u16 => "rebuild"@,
        27u16 => "recall"@,
        28u16 => "receive"@,
        29u16 => "recipe"@,
        30u16 => "record"@,
        31u16 => "recycle"@,
        32u16 => "reduce"@,
        33u16 => "reflect"@,
        34u16 => "reform"@,
        35u16 => "refuse"@,
        36u16 => "region"@,
        37u16 => "regret"@,
        38u16 => "regular"@,
        39u16 => "reject"@,
        40u16 => "relax"@,
        41u16 => "release"@,
        42u16 => "relief"@,
        43u16 => "rely"@,
        44u16 => "remain"@,
        45u16 => "remember"@,
        46u16 => "remind"@,
        47u16 => "remove"@,
        48u16 => "render"@,
        49u16 => "renew"@,
        50u16 => "rent"@,
        51u16 => "reopen"@,
        52u16 => "repair"@,
        53u16 => "repeat"@,
        54u16 => "replace"@,
        55u16 => "report"@,
        56u16 => "require"@,
        57u16 => "rescue"@,
        58u16 => "resemble"@,
        59u16 => "resist"@,
        60u16 => "resource"@,
        61u16 => "response"@,
        62u16 => "result"@,
        63u16 => "retire"@,
        _ => Seq::empty(),
    }
}

/// Words 1472 to 1535 of the English list.
#[verifier::opaque]
pub open spec fn list_block_23(j: u16) -> Seq<char> {
    match j {
        0u16 => "retreat"@,
        1u16 => "return"@,
        2u16 => "reunion"@,
        3u16 => "reveal"@,
        4u16 => "review"@,
        5u16 => "reward"@,
        6u16 => "rhythm"@,
        7u16 => "rib"@,
        8u16 => "ribbon"@,
        9u16 => "rice"@,
        10u16 => "rich"@,
        11u16 => "ride"@,
        12u16 => "ridge"@,
        13u16 => "rifle"@,
        14u16 => "right"@,
        15u16 => "rigid"@,
        16u16 => "ring"@,
        17u16 => "riot"@,
        18u16 => "ripple"@,
        19u16 => "risk"@,
        20u16 => "ritual"@,
        21u16 => "rival"@,
        22u16 => "river"@,
        23u16 => "road"@,
        24u16 => "roast"@,
        25u16 => "robot"@,
        26u16 => "robust"@,
        27u16 => "rocket"@,
        28u16 => "romance"@,
        29u16 => "roof"@,
        30u16 => "rookie"@,
        31u16 => "room"@,
        32u16 => "rose"@,
        33u16 => "rotate"@,
        34u16 => "rough"@,
        35u16 => "round"@,
        36u16 => "route"@,
        37u16 => "royal"@,
        38u16 => "rubber"@,
        39u16 => "rude"@,
        40u16 => "rug"@,
        41u16 => "rule"@,
        42u16 => "run"@,
        43u16 => "runway"@,
        44u16 => "rural"@,
        45u16 => "sad"@,
        46u16 => "saddle"@,
        47u16 => "sadness"@,
        48u16 => "safe"@,
        49u16 => "sail"@,
        50u16 => "salad"@,
        51u16 => "salmon"@,
        52u16 => "salon"@,
        53u16 => "salt"@,
        54u16 => "salute"@,
        55u16 => "same"@,
        56u16 => "sample"@,
        57u16 => "sand"@,
        58u16 => "satisfy"@,
        59u16 => "satoshi"@,
        60u16 => "sauce"@,
        61u16 => "sausage"@,
        62u16 => "save"@,
        63u16 => "say"@,
        _ => Seq::empty(),
    }
}

/// Words 1536 to 1599 of the English list.
#[verifier::opaque]
pub open spec fn list_block_24(j: u16) -> Seq<char> {
    match j {
        0u16 => "scale"@,
        1u16 => "scan"@,
        2u16 => "scare"@,
        3u16 => "scatter"@,
        4u16 => "scene"@,
        5u16 => "scheme"@,
        6u16 => "school"@,
        7u16 => "science"@,
        8u16 => "scissors"@,
        9u16 => "scorpion"@,
        10u16 => "scout"@,
        11u16 => "scrap"@,
        12u16 => "screen"@,
        13u16 => "script"@,
        14u16 => "scrub"@,
        15u16 => "sea"@,
        16u16 => "search"@,
        17u16 => "season"@,
        18u16 => "seat"@,
        19u16 => "second"@,
        20u16 => "secret"@,
        21u16 => "section"@,
        22u16 => "security"@,
        23u16 => "seed"@,
        24u16 => "seek"@,
        25u16 => "segment"@,
        26u16 => "select"@,
        27u16 => "sell"@,
        28u16 => "seminar"@,
        29u16 => "senior"@,
        30u16 => "sense"@,
        31u16 => "sentence"@,
        32u16 => "series"@,
        33u16 => "service"@,
        34u16 => "session"@,
        35u16 => "settle"@,
        36u16 => "setup"@,
        37u16 => "seven"@,
        38u16 => "shadow"@,
        39u16 => "shaft"@,
        40u16 => "shallow"@,
        41u16 => "share"@,
        42u16 => "shed"@,
        43u16 => "shell"@,
        44u16 => "sheriff"@,
        45u16 => "shield"@,
        46u16 => "shift"@,
        47u16 => "shine"@,
        48u16 => "ship"@,
        49u16 => "shiver"@,
        50u16 => "shock"@,
        51u16 => "shoe"@,
        52u16 => "shoot"@,
        53u16 => "shop"@,
        54u16 => "short"@,
        55u16 => "shoulder"@,
        56u16 => "shove"@,
        57u16 => "shrimp"@,
        58u16 => "shrug"@,
        59u16 => "shuffle"@,
        60u16 => "shy"@,
        61u16 => "sibling"@,
        62u16 => "sick"@,
        63u16 => "side"@,
        _ => Seq::empty(),
    }
}

/// Words 1600 to 1663 of the English list.
#[verifier::opaque]
pub open spec fn list_block_25(j: u16) -> Seq<char> {
    match j {
        0u16 => "siege"@,
        1u16 => "sight"@,
        2u16 => "sign"@,
        3u16 => "silent"@,
        4u16 => "silk"@,
        5u16 => "silly"@,
        6u16 => "silver"@,
        7u16 => "similar"@,
        8u16 => "simple"@,
        9u16 => "since"@,
        10u16 => "sing"@,
        11u16 => "siren"@,
        12u16 => "sister"@,
        13u16 => "situate"@,
        14u16 => "six"@,
        15u16 => "size"@,
        16u16 => "skate"@,
        17u16 => "sketch"@,
        18u16 => "ski"@,
        19u16 => "skill"@,
        20u16 => "skin"@,
        21u16 => "skirt"@,
        22u16 => "skull"@,
        23u16 => "slab"@,
        24u16 => "slam"@,
        25u16 => "sleep"@,
        26u16 => "slender"@,
        27u16 => "slice"@,
        28u16 => "slide"@,
        29u16 => "slight"@,
        30u16 => "slim"@,
        31u16 => "slogan"@,
        32u16 => "slot"@,
        33u16 => "slow"@,
        34u16 => "slush"@,
        35u16 => "small"@,
        36u16 => "smart"@,
        37u16 => "smile"@,
        38u16 => "smoke"@,
        39u16 => "smooth"@,
        40u16 => "snack"@,
        41u16 => "snake"@,
        42u16 => "snap"@,
        43u16 => "sniff"@,
        44u16 => "snow"@,
        45u16 => "soap"@,
        46u16 => "soccer"@,
        47u16 => "social"@,
        48u16 => "sock"@,
        49u16 => "soda"@,
        50u16 => "soft"@,
        51u16 => "solar"@,
        52u16 => "soldier"@,
        53u16 => "solid"@,
        54u16 => "solution"@,
        55u16 => "solve"@,
        56u16 => "someone"@,
        57u16 => "song"@,
        58u16 => "soon"@,
        59u16 => "sorry"@,
        60u16 => "sort"@,
        61u16 => "soul"@,
        62u16 => "sound"@,
        63u16 => "soup"@,
        _ => Seq::empty(),
    }
}

/// Words 1664 to 1727 of the English list.
#[verifier::opaque]
pub open spec fn list_block_26(j: u16) -> Seq<char> {
    match j {
        0u16 => "source"@,
        1u16 => "south"@,
        2u16 => "space"@,
        3u16 => "spare"@,
        4u16 => "spatial"@,
        5u16 => "spawn"@,
        6u16 => "speak"@,
        7u16 => "special"@,
        8u16 => "speed"@,
        9u16 => "spell"@,
        10u16 => "spend"@,
        11u16 => "sphere"@,
        12u16 => "spice"@,
        13u16 => "spider"@,
        14u16 => "spike"@,
        15u16 => "spin"@,
        16u16 => "spirit"@,
        17u16 => "split"@,
        18u16 => "spoil"@,
        19u16 => "sponsor"@,
        20u16 => "spoon"@,
        21u16 => "sport"@,
        22u16 => "spot"@,
        23u16 => "spray"@,
        24u16 => "spread"@,
        25u16 => "spring"@,
        26u16 => "spy"@,
        27u16 => "square"@,
        28u16 => "squeeze"@,
        29u16 => "squirrel"@,
        30u16 => "stable"@,
        31u16 => "stadium"@,
        32u16 => "staff"@,
        33u16 => "stage"@,
        34u16 => "stairs"@,
        35u16 => "stamp"@,
        36u16 => "stand"@,
        37u16 => "start"@,
        38u16 => "state"@,
        39u16 => "stay"@,
        40u16 => "steak"@,
        41u16 => "steel"@,
        42u16 => "stem"@,
        43u16 => "step"@,
        44u16 => "stereo"@,
        45u16 => "stick"@,
        46u16 => "still"@,
        47u16 => "sting"@,
        48u16 => "stock"@,
        49u16 => "stomach"@,
        50u16 => "stone"@,
        51u16 => "stool"@,
        52u16 => "story"@,
        53u16 => "stove"@,
        54u16 => "strategy"@,
        55u16 => "street"@,
        56u16 => "strike"@,
        57u16 => "strong"@,
        58u16 => "struggle"@,
        59u16 => "student"@,
        60u16 => "stuff"@,
        61u16 => "stumble"@,
        62u16 => "style"@,
        63u16 => "subject"@,
        _ => Seq::empty(),
    }
}

/// Words 1728 to 1791 of the English list.
#[verifier::opaque]
pub open spec fn list_block_27(j: u16) -> Seq<char> {
    match j {
        0u16 => "submit"@,
        1u16 => "subway"@,
        2u16 => "success"@,
        3u16 => "such"@,
        4u16 => "sudden"@,
        5u16 => "suffer"@,
        6u16 => "sugar"@,
        7u16 => "suggest"@,
        8u16 => "suit"@,
        9u16 => "summer"@,
        10u16 => "sun"@,
        11u16 => "sunny"@,
        12u16 => "sunset"@,
        13u16 => "super"@,
        14u16 => "supply"@,
        15u16 => "supreme"@,
        16u16 => "sure"@,
        17u16 => "surface"@,
        18u16 => "surge"@,
        19u16 => "surprise"@,
        20u16 => "surround"@,
        21u16 => "survey"@,
        22u16 => "suspect"@,
        23u16 => "sustain"@,
        24u16 => "swallow"@,
        25u16 => "swamp"@,
        26u16 => "swap"@,
        27u16 => "swarm"@,
        28u16 => "swear"@,
        29u16 => "sweet"@,
        30u16 => "swift"@,
        31u16 => "swim"@,
        32u16 => "swing"@,
        33u16 => "switch"@,
        34u16 => "sword"@,
        35u16 => "symbol"@,
        36u16 => "symptom"@,
        37u16 => "syrup"@,
        38u16 => "system"@,
        39u16 => "table"@,
        40u16 => "tackle"@,
        41u16 => "tag"@,
        42u16 => "tail"@,
        43u16 => "talent"@,
        44u16 => "talk"@,
        45u16 => "tank"@,
        46u16 => "tape"@,
        47u16 => "target"@,
        48u16 => "task"@,
        49u16 => "taste"@,
        50u16 => "tattoo"@,
        51u16 => "taxi"@,
        52u16 => "teach"@,
        53u16 => "team"@,
        54u16 => "tell"@,
        55u16 => "ten"@,
        56u16 => "tenant"@,
        57u16 => "tennis"@,
        58u16 => "tent"@,
        59u16 => "term"@,
        60u16 => "test"@,
        61u16 => "text"@,
        62u16 => "thank"@,
        63u16 => "that"@,
        _ => Seq::empty(),
    }
}

/// Words 1792 to 1855 of the English list.
#[verifier::opaque]
pub open spec fn list_block_28(j: u16) -> Seq<char> {
    match j {
        0u16 => "theme"@,
        1u16 => "then"@,
        2u16 => "theory"@,
        3u16 => "there"@,
        4u16 => "they"@,
        5u16 => "thing"@,
        6u16 => "this"@,
        7u16 => "thought"@,
        8u16 => "three"@,
        9u16 => "thrive"@,
        10u16 => "throw"@,
        11u16 => "thumb"@,
        12u16 => "thunder"@,
        13u16 => "ticket"@,
        14u16 => "tide"@,
        15u16 => "tiger"@,
        16u16 => "tilt"@,
        17u16 => "timber"@,
        18u16 => "time"@,
        19u16 => "tiny"@,
        20u16 => "tip"@,
        21u16 => "tired"@,
        22u16 => "tissue"@,
        23u16 => "title"@,
        24u16 => "toast"@,
        25u16 => "tobacco"@,
        26u16 => "today"@,
        27u16 => "toddler"@,
        28u16 => "toe"@,
        29u16 => "together"@,
        30u16 => "toilet"@,
        31u16 => "token"@,
        32u16 => "tomato"@,
        33u16 => "tomorrow"@,
        34u16 => "tone"@,
        35u16 => "tongue"@,
        36u16 => "tonight"@,
        37u16 => "tool"@,
        38u16 => "tooth"@,
        39u16 => "top"@,
        40u16 => "topic"@,
        41u16 => "topple"@,
        42u16 => "torch"@,
        43u16 => "tornado"@,
        44u16 => "tortoise"@,
        45u16 => "toss"@,
        46u16 => "total"@,
        47u16 => "tourist"@,
        48u16 => "toward"@,
        49u16 => "tower"@,
        50u16 => "town"@,
        51u16 => "toy"@,
        52u16 => "track"@,
        53u16 => "trade"@,
        54u16 => "traffic"@,
        55u16 => "tragic"@,
        56u16 => "train"@,
        57u16 => "transfer"@,
        58u16 => "trap"@,
        59u16 => "trash"@,
        60u16 => "travel"@,
        61u16 => "tray"@,
        62u16 => "treat"@,
        63u16 => "tree"@,
        _ => Seq::empty(),
    }
}

/// Words 1856 to 1919 of the English list.
#[verifier::opaque]
pub open spec fn list_block_29(j: u16) -> Seq<char> {
    match j {
        0u16 => "trend"@,
        1u16 => "trial"@,
        2u16 => "tribe"@,
        3u16 => "trick"@,
        4u16 => "trigger"@,
        5u16 => "trim"@,
        6u16 => "trip"@,
        7u16 => "trophy"@,
        8u16 => "trouble"@,
        9u16 => "truck"@,
        10u16 => "true"@,
        11u16 => "truly"@,
        12u16 => "trumpet"@,
        13u16 => "trust"@,
        14u16 => "truth"@,
        15u16 => "try"@,
        16u16 => "tube"@,
        17u16 => "tuition"@,
        18u16 => "tumble"@,
        19u16 => "tuna"@,
        20u16 => "tunnel"@,
        21u16 => "turkey"@,
        22u16 => "turn"@,
        23u16 => "turtle"@,
        24u16 => "twelve"@,
        25u16 => "twenty"@,
        26u16 => "twice"@,
        27u16 => "twin"@,
        28u16 => "twist"@,
        29u16 => "two"@,
        30u16 => "type"@,
        31u16 => "typical"@,
        32u16 => "ugly"@,
        33u16 => "umbrella"@,
        34u16 => "unable"@,
        35u16 => "unaware"@,
        36u16 => "uncle"@,
        37u16 => "uncover"@,
        38u16 => "under"@,
        39u16 => "undo"@,
        40u16 => "unfair"@,
        41u16 => "unfold"@,
        42u16 => "unhappy"@,
        43u16 => "uniform"@,
        44u16 => "unique"@,
        45u16 => "unit"@,
        46u16 => "universe"@,
        47u16 => "unknown"@,
        48u16 => "unlock"@,
        49u16 => "until"@,
        50u16 => "unusual"@,
        51u16 => "unveil"@,
        52u16 => "update"@,
        53u16 => "upgrade"@,
        54u16 => "uphold"@,
        55u16 => "upon"@,
        56u16 => "upper"@,
        57u16 => "upset"@,
        58u16 => "urban"@,
        59u16 => "urge"@,
        60u16 => "usage"@,
        61u16 => "use"@,
        62u16 => "used"@,
        63u16 => "useful"@,
        _ => Seq::empty(),
    }
}

/// Words 1920 to 1983 of the English list.
#[verifier::opaque]
pub open spec fn list_block_30(j: u16) -> Seq<char> {
    match j {
        0u16 => "useless"@,
        1u16 => "usual"@,
        2u16 => "utility"@,
        3u16 => "vacant"@,
        4u16 => "vacuum"@,
        5u16 => "vague"@,
        6u16 => "valid"@,
        7u16 => "valley"@,
        8u16 => "valve"@,
        9u16 => "van"@,
        10u16 => "vanish"@,
        11u16 => "vapor"@,
        12u16 => "various"@,
        13u16 => "vast"@,
        14u16 => "vault"@,
        15u16 => "vehicle"@,
        16u16 => "velvet"@,
        17u16 => "vendor"@,
        18u16 => "venture"@,
        19u16 => "venue"@,
        20u16 => "verb"@,
        21u16 => "verify"@,
        22u16 => "version"@,
        23u16 => "very"@,
        24u16 => "vessel"@,
        25u16 => "veteran"@,
        26u16 => "viable"@,
        27u16 => "vibrant"@,
        28u16 => "vicious"@,
        29u16 => "victory"@,
        30u16 => "video"@,
        31u16 => "view"@,
        32u16 => "village"@,
        33u16 => "vintage"@,
        34u16 => "violin"@,
        35u16 => "virtual"@,
        36u16 => "virus"@,
        37u16 => "visa"@,
        38u16 => "visit"@,
        39u16 => "visual"@,
        40u16 => "vital"@,
        41u16 => "vivid"@,
        42u16 => "vocal"@,
        43u16 => "voice"@,
        44u16 => "void"@,
        45u16 => "volcano"@,
        46u16 => "volume"@,
        47u16 => "vote"@,
        48u16 => "voyage"@,
        49u16 => "wage"@,
        50u16 => "wagon"@,
        51u16 => "wait"@,
        52u16 => "walk"@,
        53u16 => "wall"@,
        54u16 => "walnut"@,
        55u16 => "want"@,
        56u16 => "warfare"@,
        57u16 => "warm"@,
        58u16 => "warrior"@,
        59u16 => "wash"@,
        60u16 => "wasp"@,
        61u16 => "waste"@,
        62u16 => "water"@,
        63u16 => "wave"@,
        _ => Seq::empty(),
    }
}

/// Words 1984 to 2047 of the English list.
#[verifier::opaque]
pub open spec fn list_block_31(j: u16) -> Seq<char> {
    match j {
        0u16 => "way"@,
        1u16 => "wealth"@,
        2u16 => "weapon"@,
        3u16 => "wear"@,
        4u16 => "weasel"@,
        5u16 => "weather"@,
        6u16 => "web"@,
        7u16 => "wedding"@,
        8u16 => "weekend"@,
        9u16 => "weird"@,
        10u16 => "welcome"@,
        11u16 => "west"@,
        12u16 => "wet"@,
        13u16 => "whale"@,
        14u16 => "what"@,
        15u16 => "wheat"@,
        16u16 => "wheel"@,
        17u16 => "when"@,
        18u16 => "where"@,
        19u16 => "whip"@,
        20u16 => "whisper"@,
        21u16 => "wide"@,
        22u16 => "width"@,
        23u16 => "wife"@,
        24u16 => "wild"@,
        25u16 => "will"@,
        26u16 => "win"@,
        27u16 => "window"@,
        28u16 => "wine"@,
        29u16 => "wing"@,
        30u16 => "wink"@,
        31u16 => "winner"@,
        32u16 => "winter"@,
        33u16 => "wire"@,
        34u16 => "wisdom"@,
        35u16 => "wise"@,
        36u16 => "wish"@,
        37u16 => "witness"@,
        38u16 => "wolf"@,
        39u16 => "woman"@,
        40u16 => "wonder"@,
        41u16 => "wood"@,
        42u16 => "wool"@,
        43u16 => "word"@,
        44u16 => "work"@,
        45u16 => "world"@,
        46u16 => "worry"@,
        47u16 => "worth"@,
        48u16 => "wrap"@,
        49u16 => "wreck"@,
        50u16 => "wrestle"@,
        51u16 => "wrist"@,
        52u16 => "write"@,
        53u16 => "wrong"@,
        54u16 => "yard"@,
        55u16 => "year"@,
        56u16 => "yellow"@,
        57u16 => "you"@,
        58u16 => "young"@,
        59u16 => "youth"@,
        60u16 => "zebra"@,
        61u16 => "zero"@,
        62u16 => "zone"@,
        63u16 => "zoo"@,
        _ => Seq::empty(),
    }
}

/// Whether `w` is a word of the BIP-0039 English list.
pub open spec fn is_english_word(w: Seq<char>) -> bool {
    exists|i: int| 0 <= i < 2048 && #[trigger] english_word(i) == w
}

/// Bit `i` of `bytes`, counting from the most significant bit of the first
/// byte.
pub open spec fn bit_at(bytes: Seq<u8>, i: int) -> int {
    (bytes[i / 8] as int / pow2((7 - i % 8) as nat) as int) % 2
}

/// The number that the `len` bits of `bytes` from bit `start` on denote,
/// most significant first.
pub open spec fn bits_value(bytes: Seq<u8>, start: int, len: nat) -> int
    decreases len,
{
    if len == 0 {
        0
    } else {
        bits_value(bytes, start, (len - 1) as nat) * 2 + bit_at(bytes, start + len - 1)
    }
}

/// The 24 words that 32 bytes of `entropy` and the `checksum` byte encode:
/// the 264 bits of the entropy followed by the checksum, cut into 11-bit
/// groups, each the index of a word of the English list.
pub open spec fn bip39_words(entropy: Seq<u8>, checksum: u8) -> Seq<Seq<char>> {
    Seq::new(24, |k: int| english_word(bits_value(entropy.push(checksum), 11 * k, 11)))
}

/// The words of `words` joined by single spaces.
pub open spec fn join_words(words: Seq<Seq<char>>) -> Seq<char>
    decreases words.len(),
{
    if words.len() == 0 {
        Seq::empty()
    } else if words.len() == 1 {
        words[0]
    } else {
        join_words(words.drop_last()) + seq![' '] + words.last()
    }
}

/// The English mnemonic phrase of 32 bytes of `entropy` whose checksum byte
/// (the first byte of the entropy's SHA-256 digest, all 8 bits of which a
/// 256-bit entropy takes) is `checksum`.
pub open spec fn bip39_english_phrase(entropy: Seq<u8>, checksum: u8) -> Seq<char> {
    join_words(bip39_words(entropy, checksum))
}

/// Whether `p` is `words` words of lowercase ASCII letters, each separated
/// from the next by one space, with no space at either end.
pub open spec fn is_word_phrase(p: Seq<char>, words: nat) -> bool {
    &&& p.len() > 0
    &&& p[0] != ' '
    &&& p.last() != ' '
    &&& forall|i: int| 0 <= i < p.len() ==> ('a' <= #[trigger] p[i] <= 'z' || p[i] == ' ')
    &&& forall|i: int| 0 <= i < p.len() - 1 && #[trigger] p[i] == ' ' ==> p[i + 1] != ' '
    &&& count_char(p, ' ') + 1 == words
}

/// Whether `p` is a valid 24-word English BIP-0039 mnemonic: the phrase of
/// some 32 bytes of entropy with the checksum SHA-256 gives them. Its words
/// are then all words of the English list.
pub open spec fn is_english_mnemonic(p: Seq<char>) -> bool {
    exists|entropy: Seq<u8>|
        entropy.len() == 32 && p == #[trigger] bip39_english_phrase(
            entropy,
            sha256_digest(entropy)[0],
        )
}

/// A new random 24-word BIP-0039 mnemonic in English and the entropy it
/// encodes, from `bip0039::Mnemonic::<English>::generate(Count::Words24)`,
/// read out with `entropy` and `into_phrase`. The crate draws 32 bytes of
/// entropy from the thread's random generator, appends the first byte of their
/// SHA-256 digest as checksum, and maps each 11-bit group, most significant bit
/// first, to a word of its English list (`words/english.txt`, whose 2048 words
/// are lowercase ASCII letters); the words are joined by single spaces. Which
/// entropy is drawn is left unsaid: it rests on chance.
#[verifier::external_body]
pub(crate) fn generate_mnemonic() -> (generated: (String, Vec<u8>))
    ensures
        generated.1@.len() == 32,
        generated.0@ == bip39_english_phrase(generated.1@, sha256_digest(generated.1@)[0]),
        is_word_phrase(generated.0@, 24),
{
    let mnemonic = bip0039::Mnemonic::<bip0039::English>::generate(bip0039::Count::Words24);
    let entropy = mnemonic.entropy().to_vec();
    (mnemonic.into_phrase(), entropy)
}

/// Every word of a phrase built from entropy is a word of the English list.
pub proof fn bip39_words_are_english(entropy: Seq<u8>, checksum: u8)
    requires
        entropy.len() == 32,
    ensures
        bip39_words(entropy, checksum).len() == 24,
        forall|k: int|
            0 <= k < 24 ==> is_english_word(#[trigger] bip39_words(entropy, checksum)[k]),
{
    assert forall|k: int| 0 <= k < 24 implies is_english_word(
        #[trigger] bip39_words(entropy, checksum)[k],
    ) by {
        let bytes = entropy.push(checksum);
        let i = bits_value(bytes, 11 * k, 11);
        lemma_bits_value_range(bytes, 11 * k, 11);
        vstd::arithmetic::power2::lemma2_to64();
        assert(0 <= i < 2048);
        assert(english_word(i) == bip39_words(entropy, checksum)[k]);
    }
}

proof fn lemma_bit_range(bytes: Seq<u8>, i: int)
    ensures
        0 <= bit_at(bytes, i) <= 1,
{
    let d = pow2((7 - i % 8) as nat) as int;
    vstd::arithmetic::power2::lemma_pow2_pos((7 - i % 8) as nat);
    assert(bytes[i / 8] as int / d >= 0) by (nonlinear_arith)
        requires
            d > 0,
            bytes[i / 8] as int >= 0,
    ;
}

proof fn lemma_bits_value_range(bytes: Seq<u8>, start: int, len: nat)
    ensures
        0 <= bits_value(bytes, start, len) < pow2(len),
    decreases len,
{
    if len > 0 {
        lemma_bits_value_range(bytes, start, (len - 1) as nat);
        lemma_bit_range(bytes, start + len - 1);
        vstd::arithmetic::power2::lemma_pow2_unfold(len);
    } else {
        vstd::arithmetic::power2::lemma2_to64();
    }
}

} // verus!
