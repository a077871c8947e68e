//! Heuristic security scanning: an ordered ruleset of signature, entropy and
//! structural rules, aggregated into a bounded risk score and a verdict.
use vstd::prelude::*;
use vstd::string::StringSliceAdditionalSpecFns;
use vstd::utf8::{encode_scalar, encode_utf8};

use crate::bytes::{contains_from, copy_bytes, has_prefix, occurs_from, starts_with};
use crate::codec::{decode, decode_spec, PAYLOAD_LIMIT};
use crate::config::ServiceConfig;
use crate::error::ProcessError;

verus! {

/// The highest risk score.
pub const MAX_SCORE: u32 = 100;

/// What a rule looks for in the scanned bytes.
pub enum RuleCheck {
    /// The pattern occurs anywhere.
    Signature { pattern: Vec<u8> },
    /// Some aligned block of `window` bytes holds at least `min_distinct`
    /// distinct byte values (packed or encrypted content).
    Entropy { window: usize, min_distinct: usize },
    /// The file begins with `header` and `marker` occurs at offset `min_offset` or later.
    Marker { header: Vec<u8>, marker: Vec<u8>, min_offset: usize },
}

/// One detection rule: an identifier, a check and the weight it adds to the score.
pub struct Rule {
    pub id: String,
    pub check: RuleCheck,
    pub weight: u32,
}

/// The coarse classification of a scanned file.
#[derive(Clone, Copy, Debug, PartialEq, Eq, Structural)]
pub enum Verdict {
    Clean,
    Suspicious,
    Malicious,
}

/// The outcome of one scan.
pub struct ScanResult {
    pub verdict: Verdict,
    pub matched_rules: Vec<String>,
    pub risk_score: u32,
}

/// Number of byte values `v < bound` that occur in `s`.
pub open spec fn present_below(s: Seq<u8>, bound: nat) -> nat
    decreases bound,
{
    if bound == 0 {
        0
    } else {
        present_below(s, (bound - 1) as nat) + if s.contains((bound - 1) as u8) { 1nat } else { 0nat }
    }
}

/// Number of distinct byte values in `s`.
pub open spec fn distinct_spec(s: Seq<u8>) -> nat {
    present_below(s, 256)
}

/// Some block `[start + k * window, start + (k + 1) * window)` of `b` holds at
/// least `min_distinct` distinct values.
pub open spec fn high_entropy_from(b: Seq<u8>, window: nat, min_distinct: nat, start: nat) -> bool
    decreases b.len() - start,
{
    if window == 0 || start + window > b.len() {
        false
    } else {
        distinct_spec(b.subrange(start as int, (start + window) as int)) >= min_distinct
            || high_entropy_from(b, window, min_distinct, start + window)
    }
}

/// Whether `rule` matches the bytes `b`.
pub open spec fn rule_matches(rule: Rule, b: Seq<u8>) -> bool {
    match rule.check {
        RuleCheck::Signature { pattern } => occurs_from(b, pattern@, 0),
        RuleCheck::Entropy { window, min_distinct } => high_entropy_from(b, window as nat, min_distinct as nat, 0),
        RuleCheck::Marker { header, marker, min_offset } => starts_with(b, header@)
            && occurs_from(b, marker@, min_offset as int),
    }
}

/// A rule that can be evaluated: patterns and markers are not empty, windows not zero.
pub open spec fn rule_wf(rule: Rule) -> bool {
    match rule.check {
        RuleCheck::Signature { pattern } => pattern@.len() > 0,
        RuleCheck::Entropy { window, min_distinct } => window > 0,
        RuleCheck::Marker { header, marker, min_offset } => marker@.len() > 0,
    }
}

/// The sum of the weights of the rules that match `b`.
pub open spec fn total_weight(rules: Seq<Rule>, b: Seq<u8>) -> nat
    decreases rules.len(),
{
    if rules.len() == 0 {
        0
    } else {
        total_weight(rules.drop_last(), b) + if rule_matches(rules.last(), b) { rules.last().weight as nat } else { 0nat }
    }
}

/// The identifiers of the rules that match `b`, in rule order.
pub open spec fn matched_ids(rules: Seq<Rule>, b: Seq<u8>) -> Seq<Seq<char>>
    decreases rules.len(),
{
    if rules.len() == 0 {
        Seq::empty()
    } else if rule_matches(rules.last(), b) {
        matched_ids(rules.drop_last(), b).push(rules.last().id@)
    } else {
        matched_ids(rules.drop_last(), b)
    }
}

/// The risk score: the matched weights, capped at the highest score.
pub open spec fn risk_score_spec(rules: Seq<Rule>, b: Seq<u8>) -> nat {
    let t = total_weight(rules, b);
    if t > MAX_SCORE { MAX_SCORE as nat } else { t }
}

/// The verdict for a score under the two thresholds.
pub open spec fn verdict_spec(score: nat, suspicious_at: nat, malicious_at: nat) -> Verdict {
    if score >= malicious_at {
        Verdict::Malicious
    } else if score >= suspicious_at {
        Verdict::Suspicious
    } else {
        Verdict::Clean
    }
}

/// The views of a list of identifiers.
pub open spec fn ids_view(ids: Seq<String>) -> Seq<Seq<char>> {
    ids.map_values(|s: String| s@)
}

/// Counts the distinct byte values in `b[start..end]`.
pub fn distinct_count(b: &[u8], start: usize, end: usize) -> (r: usize)
    requires
        start <= end <= b@.len(),
    ensures
        r == distinct_spec(b@.subrange(start as int, end as int)),
{
    let ghost w = b@.subrange(start as int, end as int);
    let mut seen: Vec<bool> = vec![false; 256];
    let mut j: usize = start;
    while j < end
        invariant
            start <= j <= end <= b@.len(),
            w == b@.subrange(start as int, end as int),
            seen@.len() == 256,
            forall|v: int| 0 <= v < 256 ==> seen@[v] == b@.subrange(start as int, j as int).contains(v as u8),
        decreases end - j,
    {
        let x = b[j];
        seen.set(x as usize, true);
        proof {
            let before = b@.subrange(start as int, j as int);
            let after = b@.subrange(start as int, j + 1);
            assert(after =~= before.push(x));
            assert forall|v: int| 0 <= v < 256 implies seen@[v] == after.contains(v as u8) by {
                if v == x as int {
                    assert(after[after.len() - 1] == x);
                } else {
                    if after.contains(v as u8) {
                        let k = choose|k: int| 0 <= k < after.len() && after[k] == v as u8;
                        assert(before[k] == v as u8);
                    }
                    if before.contains(v as u8) {
                        let k = choose|k: int| 0 <= k < before.len() && before[k] == v as u8;
                        assert(after[k] == v as u8);
                    }
                }
            }
        }
        j = j + 1;
    }
    let mut count: usize = 0;
    let mut v: usize = 0;
    while v < 256
        invariant
            v <= 256,
            count <= v,
            seen@.len() == 256,
            forall|u: int| 0 <= u < 256 ==> seen@[u] == w.contains(u as u8),
            count == present_below(w, v as nat),
        decreases 256 - v,
    {
        if seen[v] {
            count = count + 1;
        }
        v = v + 1;
    }
    count
}

/// Whether some aligned block of `window` bytes holds `min_distinct` distinct values.
pub fn high_entropy(b: &[u8], window: usize, min_distinct: usize) -> (r: bool)
    ensures
        r == high_entropy_from(b@, window as nat, min_distinct as nat, 0),
{
    if window == 0 {
        return false;
    }
    let n: usize = b.len();
    let mut start: usize = 0;
    while start <= n && window <= n - start
        invariant
            window > 0,
            n == b@.len(),
            high_entropy_from(b@, window as nat, min_distinct as nat, 0)
                == high_entropy_from(b@, window as nat, min_distinct as nat, start as nat),
        decreases n - start,
    {
        if distinct_count(b, start, start + window) >= min_distinct {
            return true;
        }
        start = start + window;
    }
    false
}

/// Whether `rule` matches `b`.
pub fn evaluate(rule: &Rule, b: &[u8]) -> (r: bool)
    ensures
        r == rule_matches(*rule, b@),
{
    match &rule.check {
        RuleCheck::Signature { pattern } => contains_from(b, pattern.as_slice(), 0),
        RuleCheck::Entropy { window, min_distinct } => high_entropy(b, *window, *min_distinct),
        RuleCheck::Marker { header, marker, min_offset } => has_prefix(b, header.as_slice())
            && contains_from(b, marker.as_slice(), *min_offset),
    }
}

/// Whether `rule` can be evaluated.
pub fn rule_is_wf(rule: &Rule) -> (r: bool)
    ensures
        r == rule_wf(*rule),
{
    match &rule.check {
        RuleCheck::Signature { pattern } => pattern.len() > 0,
        RuleCheck::Entropy { window, min_distinct } => *window > 0,
        RuleCheck::Marker { header, marker, min_offset } => marker.len() > 0,
    }
}

/// Applies `rules` in order to `b`, giving the matched identifiers and the capped score.
pub fn apply_rules(rules: &Vec<Rule>, b: &[u8]) -> (r: (Vec<String>, u32))
    ensures
        ids_view(r.0@) == matched_ids(rules@, b@),
        r.1 == risk_score_spec(rules@, b@),
{
    let mut ids: Vec<String> = Vec::new();
    let mut score: u32 = 0;
    let mut i: usize = 0;
    while i < rules.len()
        invariant
            i <= rules@.len(),
            ids_view(ids@) == matched_ids(rules@.subrange(0, i as int), b@),
            score == risk_score_spec(rules@.subrange(0, i as int), b@),
        decreases rules@.len() - i,
    {
        let rule = &rules[i];
        let hit = evaluate(rule, b);
        proof {
            let next = rules@.subrange(0, i + 1);
            assert(next.drop_last() =~= rules@.subrange(0, i as int));
            assert(next.last() == rules@[i as int]);
        }
        if hit {
            let sum: u64 = score as u64 + rule.weight as u64;
            score = if sum > MAX_SCORE as u64 { MAX_SCORE } else { sum as u32 };
            let ghost old_ids = ids@;
            ids.push(rule.id.clone());
            assert(ids_view(ids@) =~= ids_view(old_ids).push(rule.id@));
        }
        i = i + 1;
    }
    assert(rules@.subrange(0, rules@.len() as int) =~= rules@);
    (ids, score)
}

/// `rule` is the signature rule `id` for `pattern` with `weight`.
pub open spec fn is_signature_rule(rule: Rule, id: Seq<char>, pattern: Seq<u8>, weight: u32) -> bool {
    &&& rule.id@ == id
    &&& rule.weight == weight
    &&& rule.check matches RuleCheck::Signature { pattern: p } && p@ == pattern
}

/// `rule` is the marker rule `id` for `header`, `marker` and `min_offset` with `weight`.
pub open spec fn is_marker_rule(rule: Rule, id: Seq<char>, header: Seq<u8>, marker: Seq<u8>, min_offset: usize, weight: u32) -> bool {
    &&& rule.id@ == id
    &&& rule.weight == weight
    &&& rule.check matches RuleCheck::Marker { header: h, marker: m, min_offset: o } && h@ == header && m@ == marker
        && o == min_offset
}

/// The bytes of the EICAR anti-virus test file.
pub open spec fn eicar_signature() -> Seq<u8> {
    "X5O!P%@AP[4\\PZX54(P^)7CC)7}$EICAR-STANDARD-ANTIVIRUS-TEST-FILE!$H+H*".spec_bytes()
}

/// The default ruleset, rule by rule, in priority order.
pub open spec fn is_default_ruleset(rules: Seq<Rule>) -> bool {
    &&& rules.len() == 7
    &&& is_signature_rule(rules[0], "eicar-test-signature"@, eicar_signature(), 100)
    &&& is_marker_rule(rules[1], "embedded-pe-executable"@, Seq::empty(), "This program cannot be run in DOS mode".spec_bytes(), 1, 60)
    &&& is_marker_rule(rules[2], "embedded-elf-executable"@, Seq::empty(), "\x7fELF".spec_bytes(), 1, 60)
    &&& is_marker_rule(rules[3], "pdf-javascript"@, seq![0x25u8, 0x50, 0x44, 0x46, 0x2d], "/JavaScript".spec_bytes(), 5, 40)
    &&& is_marker_rule(rules[4], "pdf-launch-action"@, seq![0x25u8, 0x50, 0x44, 0x46, 0x2d], "/Launch".spec_bytes(), 5, 50)
    &&& is_marker_rule(rules[5], "office-vba-macro"@, seq![0x50u8, 0x4b, 0x03, 0x04], "vbaProject.bin".spec_bytes(), 4, 50)
    &&& rules[6].id@ == "high-entropy-region"@
    &&& rules[6].weight == 30
    &&& rules[6].check matches RuleCheck::Entropy { window: w, min_distinct: d } && w == 256 && d == 160
}

proof fn lemma_utf8_nonempty(chars: Seq<char>)
    requires
        chars.len() > 0,
    ensures
        encode_utf8(chars).len() > 0,
{
    assert(encode_utf8(chars) == encode_scalar(chars[0] as u32) + encode_utf8(chars.drop_first()));
}

fn signature_rule(id: &str, pattern: &str, weight: u32) -> (r: Rule)
    requires
        pattern@.len() > 0,
    ensures
        rule_wf(r),
        is_signature_rule(r, id@, pattern.spec_bytes(), weight),
{
    proof { lemma_utf8_nonempty(pattern@); }
    Rule { id: String::from_str(id), check: RuleCheck::Signature { pattern: copy_bytes(pattern.as_bytes()) }, weight }
}

fn marker_rule(id: &str, header: Vec<u8>, marker: &str, min_offset: usize, weight: u32) -> (r: Rule)
    requires
        marker@.len() > 0,
    ensures
        rule_wf(r),
        is_marker_rule(r, id@, header@, marker.spec_bytes(), min_offset, weight),
{
    proof { lemma_utf8_nonempty(marker@); }
    Rule {
        id: String::from_str(id),
        check: RuleCheck::Marker { header, marker: copy_bytes(marker.as_bytes()), min_offset },
        weight,
    }
}

/// Score at which the default ruleset calls a file suspicious.
pub const DEFAULT_SUSPICIOUS_AT: u32 = 30;

/// Score at which the default ruleset calls a file malicious.
pub const DEFAULT_MALICIOUS_AT: u32 = 70;

/// The default ruleset, in priority order: the EICAR anti-virus test
/// signature, embedded executables, active PDF content, Office macros, and
/// high-entropy blocks.
pub fn default_rules() -> (r: Vec<Rule>)
    ensures
        is_default_ruleset(r@),
        forall|i: int| 0 <= i < r@.len() ==> rule_wf(#[trigger] r@[i]),
{
    proof {
        reveal_strlit("X5O!P%@AP[4\\PZX54(P^)7CC)7}$EICAR-STANDARD-ANTIVIRUS-TEST-FILE!$H+H*");
        reveal_strlit("This program cannot be run in DOS mode");
        reveal_strlit("\x7fELF");
        reveal_strlit("/JavaScript");
        reveal_strlit("/Launch");
        reveal_strlit("vbaProject.bin");
    }
    let mut rules: Vec<Rule> = Vec::new();
    rules.push(signature_rule(
        "eicar-test-signature",
        "X5O!P%@AP[4\\PZX54(P^)7CC)7}$EICAR-STANDARD-ANTIVIRUS-TEST-FILE!$H+H*",
        100,
    ));
    rules.push(marker_rule("embedded-pe-executable", Vec::new(), "This program cannot be run in DOS mode", 1, 60));
    rules.push(marker_rule("embedded-elf-executable", Vec::new(), "\x7fELF", 1, 60));
    rules.push(marker_rule("pdf-javascript", vec![0x25u8, 0x50, 0x44, 0x46, 0x2d], "/JavaScript", 5, 40));
    rules.push(marker_rule("pdf-launch-action", vec![0x25u8, 0x50, 0x44, 0x46, 0x2d], "/Launch", 5, 50));
    rules.push(marker_rule("office-vba-macro", vec![0x50u8, 0x4b, 0x03, 0x04], "vbaProject.bin", 4, 50));
    rules.push(Rule {
        id: String::from_str("high-entropy-region"),
        check: RuleCheck::Entropy { window: 256, min_distinct: 160 },
        weight: 30,
    });
    assert forall|i: int| 0 <= i < rules@.len() implies rule_wf(#[trigger] rules@[i]) by {
        if i < 6 {
        }
    }
    rules
}

/// The rule at `i` matches `b`: its identifier is reported, and the score
/// is at least its weight (capped at the highest score).
pub proof fn lemma_matching_rule_counts(rules: Seq<Rule>, b: Seq<u8>, i: int)
    requires
        0 <= i < rules.len(),
        rule_matches(rules[i], b),
    ensures
        matched_ids(rules, b).contains(rules[i].id@),
        total_weight(rules, b) >= rules[i].weight,
    decreases rules.len(),
{
    let last = rules.len() - 1;
    if i == last {
        assert(matched_ids(rules, b).last() == rules[i].id@);
    } else {
        assert(rules.drop_last()[i] == rules[i]);
        lemma_matching_rule_counts(rules.drop_last(), b, i);
        if rule_matches(rules.last(), b) {
            let prev = matched_ids(rules.drop_last(), b);
            let k = choose|k: int| 0 <= k < prev.len() && prev[k] == rules[i].id@;
            assert(matched_ids(rules, b)[k] == rules[i].id@);
        }
    }
}

/// Under any ruleset, bytes in which a signature rule's pattern occurs, where
/// that rule weighs at least the malicious threshold, are judged malicious
/// and the rule's identifier is reported; the outcome depends on the ruleset,
/// the thresholds and the bytes alone.
pub proof fn lemma_signature_hit_is_malicious(
    rules: Seq<Rule>,
    b: Seq<u8>,
    i: int,
    suspicious_at: nat,
    malicious_at: nat,
)
    requires
        0 <= i < rules.len(),
        suspicious_at <= malicious_at <= MAX_SCORE,
        rules[i].check matches RuleCheck::Signature { pattern: p } && occurs_from(b, p@, 0),
        rules[i].weight >= malicious_at,
    ensures
        verdict_spec(risk_score_spec(rules, b), suspicious_at, malicious_at) == Verdict::Malicious,
        matched_ids(rules, b).contains(rules[i].id@),
{
    lemma_matching_rule_counts(rules, b, i);
}

/// Under the default ruleset and thresholds, bytes that contain the EICAR
/// test file are judged malicious and the EICAR rule is reported.
pub proof fn lemma_default_rules_flag_eicar(rules: Seq<Rule>, b: Seq<u8>)
    requires
        is_default_ruleset(rules),
        occurs_from(b, eicar_signature(), 0),
    ensures
        verdict_spec(risk_score_spec(rules, b), DEFAULT_SUSPICIOUS_AT as nat, DEFAULT_MALICIOUS_AT as nat) == Verdict::Malicious,
        matched_ids(rules, b).contains("eicar-test-signature"@),
{
    lemma_signature_hit_is_malicious(rules, b, 0, DEFAULT_SUSPICIOUS_AT as nat, DEFAULT_MALICIOUS_AT as nat);
}

/// Scans documents with a fixed, ordered ruleset.
pub struct SecurityScanner {
    rules: Vec<Rule>,
    suspicious_at: u32,
    malicious_at: u32,
    max_payload: usize,
}

impl SecurityScanner {
    pub closed spec fn rules(&self) -> Seq<Rule> {
        self.rules@
    }

    pub closed spec fn suspicious_at(&self) -> nat {
        self.suspicious_at as nat
    }

    pub closed spec fn malicious_at(&self) -> nat {
        self.malicious_at as nat
    }

    pub closed spec fn max_payload(&self) -> nat {
        self.max_payload as nat
    }

    pub closed spec fn wf(&self) -> bool {
        &&& self.max_payload <= PAYLOAD_LIMIT
        &&& self.suspicious_at <= self.malicious_at <= MAX_SCORE
        &&& forall|i: int| 0 <= i < self.rules@.len() ==> rule_wf(#[trigger] self.rules@[i])
    }

    /// What a well-formed scanner guarantees: ordered thresholds within the
    /// score range, rules that can be evaluated, and a supported size limit.
    pub proof fn lemma_wf(&self)
        requires
            self.wf(),
        ensures
            self.suspicious_at() <= self.malicious_at() <= MAX_SCORE,
            self.max_payload() <= PAYLOAD_LIMIT,
            forall|i: int| 0 <= i < self.rules().len() ==> rule_wf(#[trigger] self.rules()[i]),
    {
    }

    /// Builds a scanner; fails with `ProcessError::Scan` when a rule cannot be
    /// evaluated or the thresholds are out of order or above the highest score.
    pub fn new(config: &ServiceConfig, rules: Vec<Rule>, suspicious_at: u32, malicious_at: u32) -> (r: Result<SecurityScanner, ProcessError>)
        requires
            config.wf(),
        ensures
            r is Ok <==> (suspicious_at <= malicious_at <= MAX_SCORE
                && forall|i: int| 0 <= i < rules@.len() ==> rule_wf(#[trigger] rules@[i])),
            r matches Ok(s) ==> s.wf() && s.rules() == rules@ && s.suspicious_at() == suspicious_at
                && s.malicious_at() == malicious_at && s.max_payload() == config.max_payload(),
            r matches Err(e) ==> e == ProcessError::Scan,
    {
        if suspicious_at > malicious_at || malicious_at > MAX_SCORE {
            return Err(ProcessError::Scan);
        }
        let mut i: usize = 0;
        while i < rules.len()
            invariant
                i <= rules@.len(),
                forall|k: int| 0 <= k < i ==> rule_wf(#[trigger] rules@[k]),
            decreases rules@.len() - i,
        {
            if !rule_is_wf(&rules[i]) {
                return Err(ProcessError::Scan);
            }
            i = i + 1;
        }
        Ok(SecurityScanner { rules, suspicious_at, malicious_at, max_payload: config.max_payload_bytes() })
    }

    /// A scanner with the default ruleset and thresholds.
    pub fn with_default_rules(config: &ServiceConfig) -> (r: SecurityScanner)
        requires
            config.wf(),
        ensures
            r.wf(),
            r.suspicious_at() == DEFAULT_SUSPICIOUS_AT,
            r.malicious_at() == DEFAULT_MALICIOUS_AT,
            r.max_payload() == config.max_payload(),
            is_default_ruleset(r.rules()),
    {
        let rules = default_rules();
        let s = SecurityScanner {
            rules,
            suspicious_at: DEFAULT_SUSPICIOUS_AT,
            malicious_at: DEFAULT_MALICIOUS_AT,
            max_payload: config.max_payload_bytes(),
        };
        s
    }

    /// Scans the raw bytes `b`.
    pub fn scan_bytes(&self, b: &[u8]) -> (r: ScanResult)
        requires
            self.wf(),
        ensures
            ids_view(r.matched_rules@) == matched_ids(self.rules(), b@),
            r.risk_score == risk_score_spec(self.rules(), b@),
            r.verdict == verdict_spec(r.risk_score as nat, self.suspicious_at(), self.malicious_at()),
    {
        let (ids, score) = apply_rules(&self.rules, b);
        let verdict = if score >= self.malicious_at {
            Verdict::Malicious
        } else if score >= self.suspicious_at {
            Verdict::Suspicious
        } else {
            Verdict::Clean
        };
        ScanResult { verdict, matched_rules: ids, risk_score: score }
    }

    /// Decodes `encoded` and scans it. Fails only when the encoding is
    /// malformed or the payload too large.
    pub fn scan_file(&self, encoded: &str, file_name: &str) -> (r: Result<ScanResult, ProcessError>)
        requires
            self.wf(),
        ensures
            decode_spec(encoded@, self.max_payload()) matches Err(e) ==> r matches Err(f) && f == ProcessError::Decode(e),
            decode_spec(encoded@, self.max_payload()) matches Ok(b) ==> r matches Ok(s)
                && ids_view(s.matched_rules@) == matched_ids(self.rules(), b)
                && s.risk_score == risk_score_spec(self.rules(), b)
                && s.verdict == verdict_spec(s.risk_score as nat, self.suspicious_at(), self.malicious_at()),
    {
        match decode(encoded, self.max_payload) {
            Err(e) => Err(ProcessError::Decode(e)),
            Ok(b) => Ok(self.scan_bytes(b.as_slice())),
        }
    }
}

} // verus!
