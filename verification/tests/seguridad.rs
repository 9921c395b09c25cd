use sistema_contabilidad::seguridad::{extraer_token_bearer, generar_token, hash_password, hex16_exec, token_con, AlmacenTokens};
use sistema_contabilidad::acceso_qr::{canjear_token_qr, emitir_token_qr, token_descartable, token_vigente, TokenQr};

fn es_hex_minuscula(s: &str) -> bool {
    s.chars().all(|c| c.is_ascii_digit() || ('a'..='f').contains(&c))
}

#[test]
fn hash_de_contrasenas_conocidas() {
    assert_eq!(hash_password("admin"), "2de47ec770f5f271");
    assert_eq!(hash_password(""), "15373c54ce6330f2");
    assert_eq!(hash_password("clave123"), "1dbd2a79d5991fb7");
    assert_eq!(hash_password("ñandú"), "4f6df3b5ab24c8aa");
}

#[test]
fn hash_es_determinista_y_distingue() {
    assert_eq!(hash_password("secreto"), hash_password("secreto"));
    assert_ne!(hash_password("secreto"), hash_password("Secreto"));
    assert_eq!(hash_password("x").len(), 16);
}

#[test]
fn hex16_rellena_con_ceros() {
    assert_eq!(hex16_exec(0), "0000000000000000");
    assert_eq!(hex16_exec(255), "00000000000000ff");
    assert_eq!(hex16_exec(u64::MAX), "ffffffffffffffff");
    assert_eq!(hex16_exec(0x0123_4567_89ab_cdef), "0123456789abcdef");
}

#[test]
fn token_de_dos_numeros() {
    assert_eq!(token_con(1, 0xabc), "0000000000000001".to_string() + "0000000000000abc");
    assert_eq!(token_con(u64::MAX, 0), format!("{:016x}{:016x}", u64::MAX, 0u64));
}

#[test]
fn token_generado_tiene_formato() {
    let t = generar_token();
    assert_eq!(t.len(), 32);
    assert!(es_hex_minuscula(&t));
    let u = generar_token();
    assert_ne!(t, u);
}

#[test]
fn cabecera_bearer() {
    assert_eq!(extraer_token_bearer(Some("Bearer abc123")), Some("abc123".to_string()));
    assert_eq!(extraer_token_bearer(Some("Bearer ")), Some(String::new()));
    assert_eq!(extraer_token_bearer(Some("bearer abc")), None);
    assert_eq!(extraer_token_bearer(Some("Basic abc")), None);
    assert_eq!(extraer_token_bearer(None), None);
}

#[test]
fn almacen_autoriza_solo_tokens_registrados() {
    let mut a = AlmacenTokens::new();
    assert_eq!(a.len(), 0);
    assert!(!a.autorizar(Some("Bearer t1")));
    a.registrar("t1".to_string());
    a.registrar("t2".to_string());
    assert_eq!(a.len(), 2);
    assert!(a.es_valido("t1"));
    assert!(a.es_valido("t2"));
    assert!(!a.es_valido("t3"));
    assert!(a.autorizar(Some("Bearer t2")));
    assert!(!a.autorizar(Some("t2")));
    assert!(!a.autorizar(None));
}

#[test]
fn token_qr_emitido() {
    let t = emitir_token_qr("  admin ", 1000, 300);
    assert_eq!(t.usuario, "admin");
    assert_eq!(t.expira, 1300);
    assert!(!t.usado);
    assert_eq!(t.token.len(), 32);
    assert!(es_hex_minuscula(&t.token));
}

#[test]
fn token_qr_un_solo_uso() {
    let mut t = TokenQr { token: "abc".to_string(), usuario: "ana".to_string(), expira: 100, usado: false };
    assert!(token_vigente(&t, 50));
    assert!(!token_descartable(&t, 50));
    assert_eq!(canjear_token_qr(&mut t, 50), Some("ana".to_string()));
    assert!(t.usado);
    assert_eq!(canjear_token_qr(&mut t, 51), None);
    assert!(token_descartable(&t, 51));
}

#[test]
fn token_qr_vencido() {
    let mut t = TokenQr { token: "abc".to_string(), usuario: "ana".to_string(), expira: 100, usado: false };
    assert!(!token_vigente(&t, 100));
    assert!(!token_descartable(&t, 100));
    assert!(token_descartable(&t, 101));
    assert_eq!(canjear_token_qr(&mut t, 100), None);
    assert!(!t.usado);
}
