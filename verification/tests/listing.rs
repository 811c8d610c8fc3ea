use yappy_cajas::caja::Caja;
use yappy_cajas::device::{get_info_by_mac_address, Grupo, Kiosko};
use yappy_cajas::estado::CajasEstadoEnum;
use yappy_cajas::grupos::get_grupos;

fn grupo(id: i32) -> Grupo {
    Grupo {
        id,
        id_yappy: format!("Y-{}", id),
        nombre: format!("Grupo {}", id),
        api_key: format!("ak-{}", id),
        secret_key: format!("sk-{}", id),
    }
}

fn caja(id: i32, id_grupo: i32) -> Caja {
    Caja::new(id, id_grupo, format!("Caja {}", id), "kiosko".to_string())
}

#[test]
fn listing_puts_each_register_under_its_group() {
    let grupos = vec![grupo(1), grupo(2), grupo(3)];
    let mut open = caja(12, 2);
    open.open_session("tok".to_string());
    let cajas = vec![caja(10, 1), caja(11, 2), open, caja(13, 1), caja(14, 9)];
    let listing = get_grupos(&grupos, &cajas);
    assert_eq!(listing.len(), 3);
    assert_eq!(listing[0].id, 1);
    assert_eq!(listing[0].id_yappy, "Y-1");
    assert_eq!(listing[0].nombre, "Grupo 1");
    let ids: Vec<Vec<i32>> =
        listing.iter().map(|g| g.cajas.iter().map(|c| c.id).collect()).collect();
    assert_eq!(ids, vec![vec![10, 13], vec![11, 12], vec![]]);
    assert_eq!(listing[1].cajas[1].nombre_caja, "Caja 12");
    assert_eq!(listing[1].cajas[1].tipo, "kiosko");
    assert_eq!(listing[1].cajas[1].estado, CajasEstadoEnum::Abierto);
    assert_eq!(listing[1].cajas[0].estado, CajasEstadoEnum::Cerrado);
}

#[test]
fn listing_of_nothing_is_empty() {
    assert!(get_grupos(&vec![], &vec![caja(1, 1)]).is_empty());
    let listing = get_grupos(&vec![grupo(1)], &vec![]);
    assert_eq!(listing.len(), 1);
    assert!(listing[0].cajas.is_empty());
}

#[test]
fn device_info_gathers_three_linked_rows() {
    let kiosko = Kiosko {
        id: 5,
        id_caja: 10,
        nombre: "Kiosko A".to_string(),
        mac_address: "aa:bb".to_string(),
    };
    let mut caja = caja(10, 1);
    caja.open_session("tok-10".to_string());
    let info = get_info_by_mac_address(&kiosko, &caja, &grupo(1)).unwrap();
    assert_eq!(info.nombre, "Kiosko A");
    assert_eq!(info.id_caja, 10);
    assert_eq!(info.nombre_caja, "Caja 10");
    assert_eq!(info.token_autorizacion, Some("tok-10".to_string()));
    assert_eq!(info.estado, CajasEstadoEnum::Abierto);
    assert_eq!(info.id_yappy, "Y-1");
    assert_eq!(info.nombre_grupo, "Grupo 1");
    assert_eq!(info.api_key, "ak-1");
    assert_eq!(info.secret_key, "sk-1");
}

#[test]
fn device_info_refuses_rows_that_are_not_linked() {
    let kiosko = Kiosko {
        id: 5,
        id_caja: 10,
        nombre: "Kiosko A".to_string(),
        mac_address: "aa:bb".to_string(),
    };
    assert!(get_info_by_mac_address(&kiosko, &caja(11, 1), &grupo(1)).is_none());
    assert!(get_info_by_mac_address(&kiosko, &caja(10, 1), &grupo(2)).is_none());
    assert!(get_info_by_mac_address(&kiosko, &caja(10, 2), &grupo(2)).is_some());
}
