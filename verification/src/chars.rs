use vstd::prelude::*;

verus! {

/// A stop character carries no alphabetic signal: ASCII control
/// characters, whitespace, digits and punctuation.
pub open spec fn spec_is_stop_char(c: char) -> bool {
    (c as u32) <= 0x40 || (0x5B <= c as u32 && c as u32 <= 0x60) || (0x7B <= c as u32 && c as u32 <= 0x7E)
}

/// Decides whether `c` is a stop character (whitespace, punctuation,
/// a digit or an ASCII control character).
pub fn is_stop_char(c: char) -> (r: bool)
    ensures
        r == spec_is_stop_char(c),
{
    let o = c as u32;
    o <= 0x40 || (0x5B <= o && o <= 0x60) || (0x7B <= o && o <= 0x7E)
}

/// The lower-case form of an upper-case letter of the Latin (ASCII and
/// Latin-1) and Cyrillic alphabets; any other character maps to itself.
pub open spec fn spec_to_lower(c: char) -> char {
    match c {
        'A' => 'a',
        'B' => 'b',
        'C' => 'c',
        'D' => 'd',
        'E' => 'e',
        'F' => 'f',
        'G' => 'g',
        'H' => 'h',
        'I' => 'i',
        'J' => 'j',
        'K' => 'k',
        'L' => 'l',
        'M' => 'm',
        'N' => 'n',
        'O' => 'o',
        'P' => 'p',
        'Q' => 'q',
        'R' => 'r',
        'S' => 's',
        'T' => 't',
        'U' => 'u',
        'V' => 'v',
        'W' => 'w',
        'X' => 'x',
        'Y' => 'y',
        'Z' => 'z',
        'À' => 'à',
        'Á' => 'á',
        'Â' => 'â',
        'Ã' => 'ã',
        'Ä' => 'ä',
        'Å' => 'å',
        'Æ' => 'æ',
        'Ç' => 'ç',
        'È' => 'è',
        'É' => 'é',
        'Ê' => 'ê',
        'Ë' => 'ë',
        'Ì' => 'ì',
        'Í' => 'í',
        'Î' => 'î',
        'Ï' => 'ï',
        'Ð' => 'ð',
        'Ñ' => 'ñ',
        'Ò' => 'ò',
        'Ó' => 'ó',
        'Ô' => 'ô',
        'Õ' => 'õ',
        'Ö' => 'ö',
        'Ø' => 'ø',
        'Ù' => 'ù',
        'Ú' => 'ú',
        'Û' => 'û',
        'Ü' => 'ü',
        'Ý' => 'ý',
        'Þ' => 'þ',
        'А' => 'а',
        'Б' => 'б',
        'В' => 'в',
        'Г' => 'г',
        'Д' => 'д',
        'Е' => 'е',
        'Ж' => 'ж',
        'З' => 'з',
        'И' => 'и',
        'Й' => 'й',
        'К' => 'к',
        'Л' => 'л',
        'М' => 'м',
        'Н' => 'н',
        'О' => 'о',
        'П' => 'п',
        'Р' => 'р',
        'С' => 'с',
        'Т' => 'т',
        'У' => 'у',
        'Ф' => 'ф',
        'Х' => 'х',
        'Ц' => 'ц',
        'Ч' => 'ч',
        'Ш' => 'ш',
        'Щ' => 'щ',
        'Ъ' => 'ъ',
        'Ы' => 'ы',
        'Ь' => 'ь',
        'Э' => 'э',
        'Ю' => 'ю',
        'Я' => 'я',
        'Ѐ' => 'ѐ',
        'Ё' => 'ё',
        'Ђ' => 'ђ',
        'Ѓ' => 'ѓ',
        'Є' => 'є',
        'Ѕ' => 'ѕ',
        'І' => 'і',
        'Ї' => 'ї',
        'Ј' => 'ј',
        'Љ' => 'љ',
        'Њ' => 'њ',
        'Ћ' => 'ћ',
        'Ќ' => 'ќ',
        'Ѝ' => 'ѝ',
        'Ў' => 'ў',
        'Џ' => 'џ',
        'Ґ' => 'ґ',
        _ => c,
    }
}

/// Maps an upper-case Latin or Cyrillic letter to its lower-case form
/// and leaves every other character unchanged.
pub fn to_lower(c: char) -> (r: char)
    ensures
        r == spec_to_lower(c),
{
    match c {
        'A' => 'a',
        'B' => 'b',
        'C' => 'c',
        'D' => 'd',
        'E' => 'e',
        'F' => 'f',
        'G' => 'g',
        'H' => 'h',
        'I' => 'i',
        'J' => 'j',
        'K' => 'k',
        'L' => 'l',
        'M' => 'm',
        'N' => 'n',
        'O' => 'o',
        'P' => 'p',
        'Q' => 'q',
        'R' => 'r',
        'S' => 's',
        'T' => 't',
        'U' => 'u',
        'V' => 'v',
        'W' => 'w',
        'X' => 'x',
        'Y' => 'y',
        'Z' => 'z',
        'À' => 'à',
        'Á' => 'á',
        'Â' => 'â',
        'Ã' => 'ã',
        'Ä' => 'ä',
        'Å' => 'å',
        'Æ' => 'æ',
        'Ç' => 'ç',
        'È' => 'è',
        'É' => 'é',
        'Ê' => 'ê',
        'Ë' => 'ë',
        'Ì' => 'ì',
        'Í' => 'í',
        'Î' => 'î',
        'Ï' => 'ï',
        'Ð' => 'ð',
        'Ñ' => 'ñ',
        'Ò' => 'ò',
        'Ó' => 'ó',
        'Ô' => 'ô',
        'Õ' => 'õ',
        'Ö' => 'ö',
        'Ø' => 'ø',
        'Ù' => 'ù',
        'Ú' => 'ú',
        'Û' => 'û',
        'Ü' => 'ü',
        'Ý' => 'ý',
        'Þ' => 'þ',
        'А' => 'а',
        'Б' => 'б',
        'В' => 'в',
        'Г' => 'г',
        'Д' => 'д',
        'Е' => 'е',
        'Ж' => 'ж',
        'З' => 'з',
        'И' => 'и',
        'Й' => 'й',
        'К' => 'к',
        'Л' => 'л',
        'М' => 'м',
        'Н' => 'н',
        'О' => 'о',
        'П' => 'п',
        'Р' => 'р',
        'С' => 'с',
        'Т' => 'т',
        'У' => 'у',
        'Ф' => 'ф',
        'Х' => 'х',
        'Ц' => 'ц',
        'Ч' => 'ч',
        'Ш' => 'ш',
        'Щ' => 'щ',
        'Ъ' => 'ъ',
        'Ы' => 'ы',
        'Ь' => 'ь',
        'Э' => 'э',
        'Ю' => 'ю',
        'Я' => 'я',
        'Ѐ' => 'ѐ',
        'Ё' => 'ё',
        'Ђ' => 'ђ',
        'Ѓ' => 'ѓ',
        'Є' => 'є',
        'Ѕ' => 'ѕ',
        'І' => 'і',
        'Ї' => 'ї',
        'Ј' => 'ј',
        'Љ' => 'љ',
        'Њ' => 'њ',
        'Ћ' => 'ћ',
        'Ќ' => 'ќ',
        'Ѝ' => 'ѝ',
        'Ў' => 'ў',
        'Џ' => 'џ',
        'Ґ' => 'ґ',
        _ => c,
    }
}

} // verus!
