use sistema_contabilidad::texto::{recortar_texto, vacio_al_recortar};

#[test]
fn espacios_como_char_is_whitespace() {
    for v in 0u32..=0x10FFFF {
        if let Some(c) = char::from_u32(v) {
            let s = c.to_string();
            assert_eq!(vacio_al_recortar(&s), c.is_whitespace(), "carácter U+{:04X}", v);
        }
    }
}

#[test]
fn recorte_como_trim() {
    for t in ["  hola  ", "\u{3000}x\u{2029}", "\u{85}a b\u{a0}", "\u{180e}y", "", " \t\n\r "] {
        assert_eq!(recortar_texto(t), t.trim());
    }
}
