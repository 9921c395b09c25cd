use sistema_contabilidad::empresa::{
    faltan_credenciales, fase_inicial, iniciales, nombre_corto, siguiente_fase, titulo_ventana, validar_cuenta,
    validar_instalacion, EventoSesion, Fase, FormularioInstalacion,
};
use sistema_contabilidad::confirmacion::{tras_eliminar, ConfirmTarget, Confirmacion};

#[test]
fn iniciales_de_la_empresa() {
    assert_eq!(iniciales("Mi Negocio Cia. Ltda."), "MNC");
    assert_eq!(iniciales("mi negocio"), "MN");
    assert_eq!(iniciales("  uno\tdos  "), "UD");
    assert_eq!(iniciales(""), "SC");
    assert_eq!(iniciales("123 456"), "SC");
    assert_eq!(iniciales("Ñandú 2 élite"), "ÑÉ");
    assert_eq!(iniciales("a b c d e"), "ABC");
}

#[test]
fn nombre_corto_y_titulo() {
    assert_eq!(nombre_corto("Ferretería"), "Sistema Ferretería");
    assert_eq!(nombre_corto("   "), "Sistema Contabilidad");
    assert_eq!(titulo_ventana(&Fase::Presentacion, "X"), "Sistema de Contabilidad");
    assert_eq!(titulo_ventana(&Fase::Instalacion, "X"), "Instalación - Sistema de Contabilidad");
    assert_eq!(titulo_ventana(&Fase::Login, "X"), "Iniciar sesión - Sistema X");
    assert_eq!(titulo_ventana(&Fase::Principal, ""), "Sistema Contabilidad");
}

#[test]
fn fases_de_la_sesion() {
    assert_eq!(fase_inicial(true), Fase::Login);
    assert_eq!(fase_inicial(false), Fase::Presentacion);
    assert_eq!(siguiente_fase(&EventoSesion::FinPresentacion), Fase::Instalacion);
    assert_eq!(siguiente_fase(&EventoSesion::ConfiguracionGuardada), Fase::Login);
    assert_eq!(siguiente_fase(&EventoSesion::IngresoCorrecto), Fase::Principal);
    assert_eq!(siguiente_fase(&EventoSesion::CerrarSesion), Fase::Login);
}

fn formulario() -> FormularioInstalacion {
    FormularioInstalacion {
        empresa_nombre: "Mi Negocio".to_string(),
        ruc: "1790012345001".to_string(),
        direccion: String::new(),
        telefono: "022222222".to_string(),
        email: String::new(),
        ciudad: String::new(),
        iva: "15".to_string(),
        usuario: "admin".to_string(),
        contrasena: "clave".to_string(),
        confirmar: "clave".to_string(),
    }
}

#[test]
fn instalacion_valida() {
    assert!(validar_instalacion(&formulario()).is_empty());
}

#[test]
fn instalacion_con_todos_los_errores() {
    let mut f = formulario();
    f.empresa_nombre = " ".to_string();
    f.ruc = String::new();
    f.telefono = "\t".to_string();
    f.usuario = String::new();
    f.contrasena = String::new();
    f.confirmar = "x".to_string();
    let e = validar_instalacion(&f);
    let campos: Vec<&str> = e.iter().map(|(c, _)| c.as_str()).collect();
    assert_eq!(campos, vec!["empresa", "ruc", "telefono", "usuario", "contrasena", "confirmar"]);
    assert_eq!(e[0].1, "El nombre de la empresa es obligatorio");
    assert_eq!(e[1].1, "El RUC es obligatorio");
    assert_eq!(e[2].1, "El teléfono es obligatorio");
    assert_eq!(e[3].1, "Cree un nombre de usuario");
    assert_eq!(e[4].1, "La contraseña es obligatoria");
    assert_eq!(e[5].1, "Las contraseñas no coinciden");
}

#[test]
fn instalacion_contrasenas_distintas() {
    let mut f = formulario();
    f.confirmar = "otra".to_string();
    let e = validar_instalacion(&f);
    assert_eq!(e, vec![("confirmar".to_string(), "Las contraseñas no coinciden".to_string())]);
}

#[test]
fn credenciales_y_cuenta() {
    assert!(faltan_credenciales("  ", "x"));
    assert!(faltan_credenciales("ana", ""));
    assert!(!faltan_credenciales("ana", " "));
    assert_eq!(validar_cuenta("", "Caja"), Some(("codigo".to_string(), "El código es obligatorio".to_string())));
    assert_eq!(validar_cuenta("1.1", " "), Some(("nombre".to_string(), "El nombre es obligatorio".to_string())));
    assert_eq!(validar_cuenta("1.1", "Caja"), None);
}

#[test]
fn confirmacion_de_eliminacion() {
    let mut c = Confirmacion::nueva();
    assert_eq!(c.confirmar(), None);
    c.pedir(5, ConfirmTarget::Cliente);
    c.pedir(7, ConfirmTarget::DeudaPago);
    assert_eq!(c.confirmar(), Some((7, ConfirmTarget::DeudaPago)));
    assert_eq!(c.confirmar(), None);
    c.pedir(9, ConfirmTarget::Venta);
    c.cancelar();
    assert!(c.pendiente.is_none());
    assert_eq!(c.confirmar(), None);
}

#[test]
fn despues_de_eliminar() {
    let a = tras_eliminar(ConfirmTarget::DeudaPago, true);
    assert!(a.recargar && a.ver_detalle_deuda);
    assert_eq!(a.aviso, Some("Registro eliminado correctamente".to_string()));
    let b = tras_eliminar(ConfirmTarget::Cliente, true);
    assert!(b.recargar && !b.ver_detalle_deuda);
    let c = tras_eliminar(ConfirmTarget::DeudaPago, false);
    assert!(!c.recargar && !c.ver_detalle_deuda && c.aviso.is_none());
}
