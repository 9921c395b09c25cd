# sistema_contabilidad

Biblioteca verificada con Verus del sistema de contabilidad para pequeños negocios
(ventas, compras, inventario, cobros de comisiones de máquinas, retenciones y
facturación electrónica), y el servidor HTTP que la usa para la aplicación del
celular.

- `src/`: la biblioteca. Cada función pública lleva su contrato (`requires` /
  `ensures`) sobre especificaciones en `Seq`, `Option` y enteros, y Verus lo
  demuestra. Módulos:
  - `seguridad`: hash de contraseñas, tokens de sesión y autorización `Bearer`.
  - `acceso_qr`: tokens de un solo uso del código QR.
  - `documentos`: escapado XML, nombres de archivo y XML de la factura electrónica.
  - `reportes`: archivo de los libros de ventas y compras (ATS).
  - `empresa`: iniciales y nombre de la empresa, fases de la sesión y validación de
    la instalación y del plan de cuentas.
  - `formularios`: avisos de los formularios de ventas, compras y cotizaciones y
    elección del proveedor de una compra.
  - `numeracion`: numeración de retenciones, códigos de cliente, folios y día de cobro.
  - `inventario`: cambios de stock.
  - `alertas`: alertas de cobros, créditos y stock y saludo de ingreso.
  - `confirmacion`: diálogo de confirmación antes de eliminar.
  - `migracion`: decisiones, consultas e informes de la migración desde la base antigua.
  - `red`: dirección IPv4 local y dirección para el celular.
  - `respaldos`: nombres de las copias de la base y una copia automática por día.
  - `fechas`: antigüedad en días de un saldo.
  - `modelos`: registros sin importes y su armado desde formularios.
  - `texto`, `numeros`: texto y enteros con la semántica de `str` y `format!`.
- `tests/`: pruebas con valores concretos.
- `app/`: el servidor (axum, SQLite con rusqlite); lee y escribe la base y llama a
  la biblioteca para cada decisión.

## Lo que no está

- La aplicación de escritorio (interfaz gráfica con iced): sus módulos de interfaz
  no forman parte de este proyecto. Sus decisiones sí están en la biblioteca
  (fases, confirmaciones, formularios, conexión del celular, respaldos).
- Los documentos PDF (factura, garantía, retención): su composición se mide en
  milímetros con números de coma flotante. Del PDF solo queda el nombre del archivo.
- Los cálculos con importes (totales, impuestos, saldos, informes contables) se
  hacen en coma flotante y quedan en la base de datos, fuera de la biblioteca.
- `app/` es solo el servidor; al arrancar sobre una base que no existe hace la
  migración automática desde la base antigua, como hacía la aplicación de escritorio.
