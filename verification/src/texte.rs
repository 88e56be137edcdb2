//! Petits outils de texte prouvés : écriture décimale des entiers,
//! comparaison ASCII sans casse et concaténation.
use vstd::prelude::*;
use vstd::string::*;

verus! {

/// Le chiffre décimal `d` (0 à 9) sous forme de caractère.
pub open spec fn chiffre(d: int) -> char {
    ('0' as int + d) as char
}

/// Écriture décimale d'un entier naturel, sans zéro de tête.
pub open spec fn decimal(n: nat) -> Seq<char>
    decreases n,
{
    if n < 10 {
        seq![chiffre(n as int)]
    } else {
        decimal(n / 10).push(chiffre((n % 10) as int))
    }
}

/// Écriture décimale d'un entier relatif : signe `-` devant les négatifs.
pub open spec fn entier_decimal(n: int) -> Seq<char> {
    if n < 0 {
        seq!['-'] + decimal((-n) as nat)
    } else {
        decimal(n as nat)
    }
}

/// Code d'un caractère après passage des majuscules ASCII en minuscules ;
/// tout autre caractère garde son code.
pub open spec fn code_minuscule(c: char) -> u32 {
    if 65 <= (c as u32) && (c as u32) <= 90 {
        ((c as u32) + 32) as u32
    } else {
        c as u32
    }
}

/// Deux textes égaux une fois les lettres ASCII ramenées en minuscules.
pub open spec fn egaux_sans_casse_ascii(a: Seq<char>, b: Seq<char>) -> bool {
    &&& a.len() == b.len()
    &&& forall|i: int| 0 <= i < a.len() ==> code_minuscule(#[trigger] a[i]) == code_minuscule(b[i])
}

fn texte_chiffre(d: u32) -> (r: &'static str)
    requires
        d < 10,
    ensures
        r@ == seq![chiffre(d as int)],
{
    proof {
        reveal_strlit("0");
        reveal_strlit("1");
        reveal_strlit("2");
        reveal_strlit("3");
        reveal_strlit("4");
        reveal_strlit("5");
        reveal_strlit("6");
        reveal_strlit("7");
        reveal_strlit("8");
        reveal_strlit("9");
    }
    match d {
        0 => "0",
        1 => "1",
        2 => "2",
        3 => "3",
        4 => "4",
        5 => "5",
        6 => "6",
        7 => "7",
        8 => "8",
        _ => "9",
    }
}

/// Ajoute à `s` l'écriture décimale de `n`.
pub fn ajouter_naturel(s: &mut String, n: u32)
    ensures
        final(s)@ == old(s)@ + decimal(n as nat),
    decreases n,
{
    if n >= 10 {
        ajouter_naturel(s, n / 10);
    }
    s.append(texte_chiffre(n % 10));
    proof {
        if n >= 10 {
            assert(decimal(n as nat) == decimal((n / 10) as nat).push(chiffre((n % 10) as int)));
        }
    }
}

/// Ajoute à `s` l'écriture décimale (signée) de `n`.
pub fn ajouter_entier(s: &mut String, n: i32)
    ensures
        final(s)@ == old(s)@ + entier_decimal(n as int),
{
    if n < 0 {
        proof {
            reveal_strlit("-");
        }
        s.append("-");
        let m: u32 = (0i64 - (n as i64)) as u32;
        ajouter_naturel(s, m);
    } else {
        ajouter_naturel(s, n as u32);
    }
}

/// Écriture décimale de `n`, comme la donne `format!("{}", n)`.
pub fn ecrire_entier(n: i32) -> (r: String)
    ensures
        r@ == entier_decimal(n as int),
{
    let mut s = String::new();
    ajouter_entier(&mut s, n);
    s
}

/// `a` suivi de `b`, dans un texte neuf.
pub fn concatener(a: &str, b: &str) -> (r: String)
    ensures
        r@ == a@ + b@,
{
    let mut s = String::from_str(a);
    s.append(b);
    s
}

fn code_en_minuscule(c: char) -> (r: u32)
    ensures
        r == code_minuscule(c),
{
    let x: u32 = c as u32;
    if 65 <= x && x <= 90 {
        x + 32
    } else {
        x
    }
}

/// Égalité de deux textes aux majuscules ASCII près, comme
/// `str::eq_ignore_ascii_case` de la bibliothèque standard.
pub fn egal_sans_casse_ascii(a: &str, b: &str) -> (r: bool)
    ensures
        r == egaux_sans_casse_ascii(a@, b@),
{
    let n = a.unicode_len();
    if n != b.unicode_len() {
        return false;
    }
    let mut i: usize = 0;
    while i < n
        invariant
            n == a@.len(),
            n == b@.len(),
            i <= n,
            forall|j: int| 0 <= j < i ==> code_minuscule(#[trigger] a@[j]) == code_minuscule(b@[j]),
        decreases n - i,
    {
        if code_en_minuscule(a.get_char(i)) != code_en_minuscule(b.get_char(i)) {
            return false;
        }
        i = i + 1;
    }
    true
}

} // verus!
