//! The word list that pairing codes draw from.
use vstd::prelude::*;

verus! {

broadcast use vstd::string::group_string_axioms;

/// The three-syllable half of the PGP word list, in lower case.
pub const WORDS: [&'static str; 256] = [
    "adroitness", "adviser", "aftermath", "aggregate", "alkali", "almighty", "amulet",
    "amusement", "antenna", "applicant", "apollo", "armistice", "article", "asteroid", "atlantic",
    "atmosphere", "autopsy", "babylon", "backwater", "barbecue", "belowground", "bifocals",
    "bodyguard", "bookseller", "borderline", "bottomless", "bradbury", "bravado", "brazilian",
    "breakaway", "burlington", "businessman", "butterfat", "camelot", "candidate", "cannonball",
    "capricorn", "caravan", "caretaker", "celebrate", "cellulose", "certify", "chambermaid",
    "cherokee", "chicago", "clergyman", "coherence", "combustion", "commando", "company",
    "component", "concurrent", "confidence", "conformist", "congregate", "consensus",
    "consulting", "corporate", "corrosion", "councilman", "crossover", "crucifix", "cumbersome",
    "customer", "dakota", "decadence", "december", "decimal", "designing", "detector",
    "detergent", "determine", "dictator", "dinosaur", "direction", "disable", "disbelief",
    "disruptive", "distortion", "document", "embezzle", "enchanting", "enrollment", "enterprise",
    "equation", "equipment", "escapade", "eskimo", "everyday", "examine", "existence", "exodus",
    "fascinate", "filament", "finicky", "forever", "fortitude", "frequency", "gadgetry",
    "galveston", "getaway", "glossary", "gossamer", "graduate", "gravity", "guitarist",
    "hamburger", "hamilton", "handiwork", "hazardous", "headwaters", "hemisphere", "hesitate",
    "hideaway", "holiness", "hurricane", "hydraulic", "impartial", "impetus", "inception",
    "indigo", "inertia", "infancy", "inferno", "informant", "insincere", "insurgent", "integrate",
    "intention", "inventive", "istanbul", "jamaica", "jupiter", "leprosy", "letterhead",
    "liberty", "maritime", "matchmaker", "maverick", "medusa", "megaton", "microscope",
    "microwave", "midsummer", "millionaire", "miracle", "misnomer", "molasses", "molecule",
    "montana", "monument", "mosquito", "narrative", "nebula", "newsletter", "norwegian",
    "october", "ohio", "onlooker", "opulent", "orlando", "outfielder", "pacific", "pandemic",
    "pandora", "paperweight", "paragon", "paragraph", "paramount", "passenger", "pedigree",
    "pegasus", "penetrate", "perceptive", "performance", "pharmacy", "phonetic", "photograph",
    "pioneer", "pocketful", "politeness", "positive", "potato", "processor", "provincial",
    "proximate", "puberty", "publisher", "pyramid", "quantity", "racketeer", "rebellion",
    "recipe", "recover", "repellent", "replica", "reproduce", "resistor", "responsive",
    "retraction", "retrieval", "retrospect", "revenue", "revival", "revolver", "sandalwood",
    "sardonic", "saturday", "savagery", "scavenger", "sensation", "sociable", "souvenir",
    "specialist", "speculate", "stethoscope", "stupendous", "supportive", "surrender",
    "suspicious", "sympathy", "tambourine", "telephone", "therapist", "tobacco", "tolerance",
    "tomorrow", "torpedo", "tradition", "travesty", "trombonist", "truncated", "typewriter",
    "ultimate", "undaunted", "underfoot", "unicorn", "unify", "universe", "unravel", "upcoming",
    "vacancy", "vagabond", "vertigo", "virginia", "visitor", "vocalist", "voyager", "warranty",
    "waterloo", "whimsical", "wichita", "wilmington", "wyoming", "yesteryear", "yucatan",
];

/// Whether `word` is in the list.
pub open spec fn listed(word: Seq<char>) -> bool {
    exists|i: int| 0 <= i < 256 && #[trigger] WORDS@[i]@ == word
}

/// Whether the first `n` characters are all lower-case ASCII letters.
pub open spec fn letters(word: Seq<char>, n: int) -> bool
    decreases n,
{
    n <= 0 || ('a' <= word[n - 1] <= 'z' && letters(word, n - 1))
}

/// Whether a word is a non-empty run of lower-case ASCII letters.
pub open spec fn spelled(word: Seq<char>) -> bool {
    word.len() > 0 && letters(word, word.len() as int)
}

proof fn spelled_from_0(i: int)
    requires
        0 <= i < 64,
    ensures
        spelled(WORDS@[i]@),
{
    reveal_with_fuel(letters, 13);
    reveal_strlit("adroitness");
    assert(spelled(WORDS@[0]@));
    reveal_strlit("adviser");
    assert(spelled(WORDS@[1]@));
    reveal_strlit("aftermath");
    assert(spelled(WORDS@[2]@));
    reveal_strlit("aggregate");
    assert(spelled(WORDS@[3]@));
    reveal_strlit("alkali");
    assert(spelled(WORDS@[4]@));
    reveal_strlit("almighty");
    assert(spelled(WORDS@[5]@));
    reveal_strlit("amulet");
    assert(spelled(WORDS@[6]@));
    reveal_strlit("amusement");
    assert(spelled(WORDS@[7]@));
    reveal_strlit("antenna");
    assert(spelled(WORDS@[8]@));
    reveal_strlit("applicant");
    assert(spelled(WORDS@[9]@));
    reveal_strlit("apollo");
    assert(spelled(WORDS@[10]@));
    reveal_strlit("armistice");
    assert(spelled(WORDS@[11]@));
    reveal_strlit("article");
    assert(spelled(WORDS@[12]@));
    reveal_strlit("asteroid");
    assert(spelled(WORDS@[13]@));
    reveal_strlit("atlantic");
    assert(spelled(WORDS@[14]@));
    reveal_strlit("atmosphere");
    assert(spelled(WORDS@[15]@));
    reveal_strlit("autopsy");
    assert(spelled(WORDS@[16]@));
    reveal_strlit("babylon");
    assert(spelled(WORDS@[17]@));
    reveal_strlit("backwater");
    assert(spelled(WORDS@[18]@));
    reveal_strlit("barbecue");
    assert(spelled(WORDS@[19]@));
    reveal_strlit("belowground");
    assert(spelled(WORDS@[20]@));
    reveal_strlit("bifocals");
    assert(spelled(WORDS@[21]@));
    reveal_strlit("bodyguard");
    assert(spelled(WORDS@[22]@));
    reveal_strlit("bookseller");
    assert(spelled(WORDS@[23]@));
    reveal_strlit("borderline");
    assert(spelled(WORDS@[24]@));
    reveal_strlit("bottomless");
    assert(spelled(WORDS@[25]@));
    reveal_strlit("bradbury");
    assert(spelled(WORDS@[26]@));
    reveal_strlit("bravado");
    assert(spelled(WORDS@[27]@));
    reveal_strlit("brazilian");
    assert(spelled(WORDS@[28]@));
    reveal_strlit("breakaway");
    assert(spelled(WORDS@[29]@));
    reveal_strlit("burlington");
    assert(spelled(WORDS@[30]@));
    reveal_strlit("businessman");
    assert(spelled(WORDS@[31]@));
    reveal_strlit("butterfat");
    assert(spelled(WORDS@[32]@));
    reveal_strlit("camelot");
    assert(spelled(WORDS@[33]@));
    reveal_strlit("candidate");
    assert(spelled(WORDS@[34]@));
    reveal_strlit("cannonball");
    assert(spelled(WORDS@[35]@));
    reveal_strlit("capricorn");
    assert(spelled(WORDS@[36]@));
    reveal_strlit("caravan");
    assert(spelled(WORDS@[37]@));
    reveal_strlit("caretaker");
    assert(spelled(WORDS@[38]@));
    reveal_strlit("celebrate");
    assert(spelled(WORDS@[39]@));
    reveal_strlit("cellulose");
    assert(spelled(WORDS@[40]@));
    reveal_strlit("certify");
    assert(spelled(WORDS@[41]@));
    reveal_strlit("chambermaid");
    assert(spelled(WORDS@[42]@));
    reveal_strlit("cherokee");
    assert(spelled(WORDS@[43]@));
    reveal_strlit("chicago");
    assert(spelled(WORDS@[44]@));
    reveal_strlit("clergyman");
    assert(spelled(WORDS@[45]@));
    reveal_strlit("coherence");
    assert(spelled(WORDS@[46]@));
    reveal_strlit("combustion");
    assert(spelled(WORDS@[47]@));
    reveal_strlit("commando");
    assert(spelled(WORDS@[48]@));
    reveal_strlit("company");
    assert(spelled(WORDS@[49]@));
    reveal_strlit("component");
    assert(spelled(WORDS@[50]@));
    reveal_strlit("concurrent");
    assert(spelled(WORDS@[51]@));
    reveal_strlit("confidence");
    assert(spelled(WORDS@[52]@));
    reveal_strlit("conformist");
    assert(spelled(WORDS@[53]@));
    reveal_strlit("congregate");
    assert(spelled(WORDS@[54]@));
    reveal_strlit("consensus");
    assert(spelled(WORDS@[55]@));
    reveal_strlit("consulting");
    assert(spelled(WORDS@[56]@));
    reveal_strlit("corporate");
    assert(spelled(WORDS@[57]@));
    reveal_strlit("corrosion");
    assert(spelled(WORDS@[58]@));
    reveal_strlit("councilman");
    assert(spelled(WORDS@[59]@));
    reveal_strlit("crossover");
    assert(spelled(WORDS@[60]@));
    reveal_strlit("crucifix");
    assert(spelled(WORDS@[61]@));
    reveal_strlit("cumbersome");
    assert(spelled(WORDS@[62]@));
    reveal_strlit("customer");
    assert(spelled(WORDS@[63]@));
}

proof fn spelled_from_64(i: int)
    requires
        64 <= i < 128,
    ensures
        spelled(WORDS@[i]@),
{
    reveal_with_fuel(letters, 13);
    reveal_strlit("dakota");
    assert(spelled(WORDS@[64]@));
    reveal_strlit("decadence");
    assert(spelled(WORDS@[65]@));
    reveal_strlit("december");
    assert(spelled(WORDS@[66]@));
    reveal_strlit("decimal");
    assert(spelled(WORDS@[67]@));
    reveal_strlit("designing");
    assert(spelled(WORDS@[68]@));
    reveal_strlit("detector");
    assert(spelled(WORDS@[69]@));
    reveal_strlit("detergent");
    assert(spelled(WORDS@[70]@));
    reveal_strlit("determine");
    assert(spelled(WORDS@[71]@));
    reveal_strlit("dictator");
    assert(spelled(WORDS@[72]@));
    reveal_strlit("dinosaur");
    assert(spelled(WORDS@[73]@));
    reveal_strlit("direction");
    assert(spelled(WORDS@[74]@));
    reveal_strlit("disable");
    assert(spelled(WORDS@[75]@));
    reveal_strlit("disbelief");
    assert(spelled(WORDS@[76]@));
    reveal_strlit("disruptive");
    assert(spelled(WORDS@[77]@));
    reveal_strlit("distortion");
    assert(spelled(WORDS@[78]@));
    reveal_strlit("document");
    assert(spelled(WORDS@[79]@));
    reveal_strlit("embezzle");
    assert(spelled(WORDS@[80]@));
    reveal_strlit("enchanting");
    assert(spelled(WORDS@[81]@));
    reveal_strlit("enrollment");
    assert(spelled(WORDS@[82]@));
    reveal_strlit("enterprise");
    assert(spelled(WORDS@[83]@));
    reveal_strlit("equation");
    assert(spelled(WORDS@[84]@));
    reveal_strlit("equipment");
    assert(spelled(WORDS@[85]@));
    reveal_strlit("escapade");
    assert(spelled(WORDS@[86]@));
    reveal_strlit("eskimo");
    assert(spelled(WORDS@[87]@));
    reveal_strlit("everyday");
    assert(spelled(WORDS@[88]@));
    reveal_strlit("examine");
    assert(spelled(WORDS@[89]@));
    reveal_strlit("existence");
    assert(spelled(WORDS@[90]@));
    reveal_strlit("exodus");
    assert(spelled(WORDS@[91]@));
    reveal_strlit("fascinate");
    assert(spelled(WORDS@[92]@));
    reveal_strlit("filament");
    assert(spelled(WORDS@[93]@));
    reveal_strlit("finicky");
    assert(spelled(WORDS@[94]@));
    reveal_strlit("forever");
    assert(spelled(WORDS@[95]@));
    reveal_strlit("fortitude");
    assert(spelled(WORDS@[96]@));
    reveal_strlit("frequency");
    assert(spelled(WORDS@[97]@));
    reveal_strlit("gadgetry");
    assert(spelled(WORDS@[98]@));
    reveal_strlit("galveston");
    assert(spelled(WORDS@[99]@));
    reveal_strlit("getaway");
    assert(spelled(WORDS@[100]@));
    reveal_strlit("glossary");
    assert(spelled(WORDS@[101]@));
    reveal_strlit("gossamer");
    assert(spelled(WORDS@[102]@));
    reveal_strlit("graduate");
    assert(spelled(WORDS@[103]@));
    reveal_strlit("gravity");
    assert(spelled(WORDS@[104]@));
    reveal_strlit("guitarist");
    assert(spelled(WORDS@[105]@));
    reveal_strlit("hamburger");
    assert(spelled(WORDS@[106]@));
    reveal_strlit("hamilton");
    assert(spelled(WORDS@[107]@));
    reveal_strlit("handiwork");
    assert(spelled(WORDS@[108]@));
    reveal_strlit("hazardous");
    assert(spelled(WORDS@[109]@));
    reveal_strlit("headwaters");
    assert(spelled(WORDS@[110]@));
    reveal_strlit("hemisphere");
    assert(spelled(WORDS@[111]@));
    reveal_strlit("hesitate");
    assert(spelled(WORDS@[112]@));
    reveal_strlit("hideaway");
    assert(spelled(WORDS@[113]@));
    reveal_strlit("holiness");
    assert(spelled(WORDS@[114]@));
    reveal_strlit("hurricane");
    assert(spelled(WORDS@[115]@));
    reveal_strlit("hydraulic");
    assert(spelled(WORDS@[116]@));
    reveal_strlit("impartial");
    assert(spelled(WORDS@[117]@));
    reveal_strlit("impetus");
    assert(spelled(WORDS@[118]@));
    reveal_strlit("inception");
    assert(spelled(WORDS@[119]@));
    reveal_strlit("indigo");
    assert(spelled(WORDS@[120]@));
    reveal_strlit("inertia");
    assert(spelled(WORDS@[121]@));
    reveal_strlit("infancy");
    assert(spelled(WORDS@[122]@));
    reveal_strlit("inferno");
    assert(spelled(WORDS@[123]@));
    reveal_strlit("informant");
    assert(spelled(WORDS@[124]@));
    reveal_strlit("insincere");
    assert(spelled(WORDS@[125]@));
    reveal_strlit("insurgent");
    assert(spelled(WORDS@[126]@));
    reveal_strlit("integrate");
    assert(spelled(WORDS@[127]@));
}

proof fn spelled_from_128(i: int)
    requires
        128 <= i < 192,
    ensures
        spelled(WORDS@[i]@),
{
    reveal_with_fuel(letters, 13);
    reveal_strlit("intention");
    assert(spelled(WORDS@[128]@));
    reveal_strlit("inventive");
    assert(spelled(WORDS@[129]@));
    reveal_strlit("istanbul");
    assert(spelled(WORDS@[130]@));
    reveal_strlit("jamaica");
    assert(spelled(WORDS@[131]@));
    reveal_strlit("jupiter");
    assert(spelled(WORDS@[132]@));
    reveal_strlit("leprosy");
    assert(spelled(WORDS@[133]@));
    reveal_strlit("letterhead");
    assert(spelled(WORDS@[134]@));
    reveal_strlit("liberty");
    assert(spelled(WORDS@[135]@));
    reveal_strlit("maritime");
    assert(spelled(WORDS@[136]@));
    reveal_strlit("matchmaker");
    assert(spelled(WORDS@[137]@));
    reveal_strlit("maverick");
    assert(spelled(WORDS@[138]@));
    reveal_strlit("medusa");
    assert(spelled(WORDS@[139]@));
    reveal_strlit("megaton");
    assert(spelled(WORDS@[140]@));
    reveal_strlit("microscope");
    assert(spelled(WORDS@[141]@));
    reveal_strlit("microwave");
    assert(spelled(WORDS@[142]@));
    reveal_strlit("midsummer");
    assert(spelled(WORDS@[143]@));
    reveal_strlit("millionaire");
    assert(spelled(WORDS@[144]@));
    reveal_strlit("miracle");
    assert(spelled(WORDS@[145]@));
    reveal_strlit("misnomer");
    assert(spelled(WORDS@[146]@));
    reveal_strlit("molasses");
    assert(spelled(WORDS@[147]@));
    reveal_strlit("molecule");
    assert(spelled(WORDS@[148]@));
    reveal_strlit("montana");
    assert(spelled(WORDS@[149]@));
    reveal_strlit("monument");
    assert(spelled(WORDS@[150]@));
    reveal_strlit("mosquito");
    assert(spelled(WORDS@[151]@));
    reveal_strlit("narrative");
    assert(spelled(WORDS@[152]@));
    reveal_strlit("nebula");
    assert(spelled(WORDS@[153]@));
    reveal_strlit("newsletter");
    assert(spelled(WORDS@[154]@));
    reveal_strlit("norwegian");
    assert(spelled(WORDS@[155]@));
    reveal_strlit("october");
    assert(spelled(WORDS@[156]@));
    reveal_strlit("ohio");
    assert(spelled(WORDS@[157]@));
    reveal_strlit("onlooker");
    assert(spelled(WORDS@[158]@));
    reveal_strlit("opulent");
    assert(spelled(WORDS@[159]@));
    reveal_strlit("orlando");
    assert(spelled(WORDS@[160]@));
    reveal_strlit("outfielder");
    assert(spelled(WORDS@[161]@));
    reveal_strlit("pacific");
    assert(spelled(WORDS@[162]@));
    reveal_strlit("pandemic");
    assert(spelled(WORDS@[163]@));
    reveal_strlit("pandora");
    assert(spelled(WORDS@[164]@));
    reveal_strlit("paperweight");
    assert(spelled(WORDS@[165]@));
    reveal_strlit("paragon");
    assert(spelled(WORDS@[166]@));
    reveal_strlit("paragraph");
    assert(spelled(WORDS@[167]@));
    reveal_strlit("paramount");
    assert(spelled(WORDS@[168]@));
    reveal_strlit("passenger");
    assert(spelled(WORDS@[169]@));
    reveal_strlit("pedigree");
    assert(spelled(WORDS@[170]@));
    reveal_strlit("pegasus");
    assert(spelled(WORDS@[171]@));
    reveal_strlit("penetrate");
    assert(spelled(WORDS@[172]@));
    reveal_strlit("perceptive");
    assert(spelled(WORDS@[173]@));
    reveal_strlit("performance");
    assert(spelled(WORDS@[174]@));
    reveal_strlit("pharmacy");
    assert(spelled(WORDS@[175]@));
    reveal_strlit("phonetic");
    assert(spelled(WORDS@[176]@));
    reveal_strlit("photograph");
    assert(spelled(WORDS@[177]@));
    reveal_strlit("pioneer");
    assert(spelled(WORDS@[178]@));
    reveal_strlit("pocketful");
    assert(spelled(WORDS@[179]@));
    reveal_strlit("politeness");
    assert(spelled(WORDS@[180]@));
    reveal_strlit("positive");
    assert(spelled(WORDS@[181]@));
    reveal_strlit("potato");
    assert(spelled(WORDS@[182]@));
    reveal_strlit("processor");
    assert(spelled(WORDS@[183]@));
    reveal_strlit("provincial");
    assert(spelled(WORDS@[184]@));
    reveal_strlit("proximate");
    assert(spelled(WORDS@[185]@));
    reveal_strlit("puberty");
    assert(spelled(WORDS@[186]@));
    reveal_strlit("publisher");
    assert(spelled(WORDS@[187]@));
    reveal_strlit("pyramid");
    assert(spelled(WORDS@[188]@));
    reveal_strlit("quantity");
    assert(spelled(WORDS@[189]@));
    reveal_strlit("racketeer");
    assert(spelled(WORDS@[190]@));
    reveal_strlit("rebellion");
    assert(spelled(WORDS@[191]@));
}

proof fn spelled_from_192(i: int)
    requires
        192 <= i < 256,
    ensures
        spelled(WORDS@[i]@),
{
    reveal_with_fuel(letters, 13);
    reveal_strlit("recipe");
    assert(spelled(WORDS@[192]@));
    reveal_strlit("recover");
    assert(spelled(WORDS@[193]@));
    reveal_strlit("repellent");
    assert(spelled(WORDS@[194]@));
    reveal_strlit("replica");
    assert(spelled(WORDS@[195]@));
    reveal_strlit("reproduce");
    assert(spelled(WORDS@[196]@));
    reveal_strlit("resistor");
    assert(spelled(WORDS@[197]@));
    reveal_strlit("responsive");
    assert(spelled(WORDS@[198]@));
    reveal_strlit("retraction");
    assert(spelled(WORDS@[199]@));
    reveal_strlit("retrieval");
    assert(spelled(WORDS@[200]@));
    reveal_strlit("retrospect");
    assert(spelled(WORDS@[201]@));
    reveal_strlit("revenue");
    assert(spelled(WORDS@[202]@));
    reveal_strlit("revival");
    assert(spelled(WORDS@[203]@));
    reveal_strlit("revolver");
    assert(spelled(WORDS@[204]@));
    reveal_strlit("sandalwood");
    assert(spelled(WORDS@[205]@));
    reveal_strlit("sardonic");
    assert(spelled(WORDS@[206]@));
    reveal_strlit("saturday");
    assert(spelled(WORDS@[207]@));
    reveal_strlit("savagery");
    assert(spelled(WORDS@[208]@));
    reveal_strlit("scavenger");
    assert(spelled(WORDS@[209]@));
    reveal_strlit("sensation");
    assert(spelled(WORDS@[210]@));
    reveal_strlit("sociable");
    assert(spelled(WORDS@[211]@));
    reveal_strlit("souvenir");
    assert(spelled(WORDS@[212]@));
    reveal_strlit("specialist");
    assert(spelled(WORDS@[213]@));
    reveal_strlit("speculate");
    assert(spelled(WORDS@[214]@));
    reveal_strlit("stethoscope");
    assert(spelled(WORDS@[215]@));
    reveal_strlit("stupendous");
    assert(spelled(WORDS@[216]@));
    reveal_strlit("supportive");
    assert(spelled(WORDS@[217]@));
    reveal_strlit("surrender");
    assert(spelled(WORDS@[218]@));
    reveal_strlit("suspicious");
    assert(spelled(WORDS@[219]@));
    reveal_strlit("sympathy");
    assert(spelled(WORDS@[220]@));
    reveal_strlit("tambourine");
    assert(spelled(WORDS@[221]@));
    reveal_strlit("telephone");
    assert(spelled(WORDS@[222]@));
    reveal_strlit("therapist");
    assert(spelled(WORDS@[223]@));
    reveal_strlit("tobacco");
    assert(spelled(WORDS@[224]@));
    reveal_strlit("tolerance");
    assert(spelled(WORDS@[225]@));
    reveal_strlit("tomorrow");
    assert(spelled(WORDS@[226]@));
    reveal_strlit("torpedo");
    assert(spelled(WORDS@[227]@));
    reveal_strlit("tradition");
    assert(spelled(WORDS@[228]@));
    reveal_strlit("travesty");
    assert(spelled(WORDS@[229]@));
    reveal_strlit("trombonist");
    assert(spelled(WORDS@[230]@));
    reveal_strlit("truncated");
    assert(spelled(WORDS@[231]@));
    reveal_strlit("typewriter");
    assert(spelled(WORDS@[232]@));
    reveal_strlit("ultimate");
    assert(spelled(WORDS@[233]@));
    reveal_strlit("undaunted");
    assert(spelled(WORDS@[234]@));
    reveal_strlit("underfoot");
    assert(spelled(WORDS@[235]@));
    reveal_strlit("unicorn");
    assert(spelled(WORDS@[236]@));
    reveal_strlit("unify");
    assert(spelled(WORDS@[237]@));
    reveal_strlit("universe");
    assert(spelled(WORDS@[238]@));
    reveal_strlit("unravel");
    assert(spelled(WORDS@[239]@));
    reveal_strlit("upcoming");
    assert(spelled(WORDS@[240]@));
    reveal_strlit("vacancy");
    assert(spelled(WORDS@[241]@));
    reveal_strlit("vagabond");
    assert(spelled(WORDS@[242]@));
    reveal_strlit("vertigo");
    assert(spelled(WORDS@[243]@));
    reveal_strlit("virginia");
    assert(spelled(WORDS@[244]@));
    reveal_strlit("visitor");
    assert(spelled(WORDS@[245]@));
    reveal_strlit("vocalist");
    assert(spelled(WORDS@[246]@));
    reveal_strlit("voyager");
    assert(spelled(WORDS@[247]@));
    reveal_strlit("warranty");
    assert(spelled(WORDS@[248]@));
    reveal_strlit("waterloo");
    assert(spelled(WORDS@[249]@));
    reveal_strlit("whimsical");
    assert(spelled(WORDS@[250]@));
    reveal_strlit("wichita");
    assert(spelled(WORDS@[251]@));
    reveal_strlit("wilmington");
    assert(spelled(WORDS@[252]@));
    reveal_strlit("wyoming");
    assert(spelled(WORDS@[253]@));
    reveal_strlit("yesteryear");
    assert(spelled(WORDS@[254]@));
    reveal_strlit("yucatan");
    assert(spelled(WORDS@[255]@));
}

proof fn letters_at(word: Seq<char>, n: int, i: int)
    requires
        letters(word, n),
        0 <= i < n,
    ensures
        'a' <= word[i] <= 'z',
    decreases n,
{
    if i < n - 1 {
        letters_at(word, n - 1, i);
    }
}

/// Every word of the list is a non-empty run of lower-case ASCII letters.
pub proof fn listed_words_are_letters(word: Seq<char>)
    requires
        listed(word),
    ensures
        word.len() > 0,
        forall|j: int| 0 <= j < word.len() ==> 'a' <= #[trigger] word[j] <= 'z',
{
    let i = choose|i: int| 0 <= i < 256 && #[trigger] WORDS@[i]@ == word;
    if i < 64 {
        spelled_from_0(i);
    } else if i < 128 {
        spelled_from_64(i);
    } else if i < 192 {
        spelled_from_128(i);
    } else {
        spelled_from_192(i);
    }
    assert forall|j: int| 0 <= j < word.len() implies 'a' <= #[trigger] word[j] <= 'z' by {
        letters_at(word, word.len() as int, j);
    }
}

/// The first three words of the list differ from one another.
pub(crate) proof fn three_words_differ()
    ensures
        WORDS@[0]@ != WORDS@[1]@,
        WORDS@[0]@ != WORDS@[2]@,
        WORDS@[1]@ != WORDS@[2]@,
{
    reveal_strlit("adroitness");
    reveal_strlit("adviser");
    reveal_strlit("aftermath");
    assert(WORDS@[0]@.len() == 10 && WORDS@[1]@.len() == 7 && WORDS@[2]@.len() == 9);
}

} // verus!
