use chrono::Datelike;
use sistema_contabilidad::fechas::{dias_transcurridos, fecha_dias_desde};

#[test]
fn dias_entre_dos_dias() {
    assert_eq!(dias_transcurridos(Some(10), 15), 5);
    assert_eq!(dias_transcurridos(Some(20), 15), 0);
    assert_eq!(dias_transcurridos(Some(15), 15), 0);
    assert_eq!(dias_transcurridos(None, 15), 0);
    assert_eq!(dias_transcurridos(Some(i32::MIN), i32::MAX), u32::MAX as i64);
}

#[test]
fn antiguedad_desde_una_fecha() {
    let hoy = chrono::Local::now().date_naive();
    let base = chrono::NaiveDate::from_ymd_opt(2000, 1, 1).unwrap();
    let esperado = (hoy - base).num_days();
    assert_eq!(fecha_dias_desde("2000-01-01"), esperado);
    assert_eq!(fecha_dias_desde("2000-01-01 10:30:00"), esperado);
    let ayer = hoy.pred_opt().unwrap();
    let texto = format!("{:04}-{:02}-{:02}", ayer.year(), ayer.month(), ayer.day());
    assert_eq!(fecha_dias_desde(&texto), 1);
    assert_eq!(fecha_dias_desde("2999-12-31"), 0);
    assert_eq!(fecha_dias_desde("basura"), 0);
    assert_eq!(fecha_dias_desde(""), 0);
    assert_eq!(fecha_dias_desde("2000-01-0é"), 0);
}
