//! The listing of merchants, each with its registers.

use crate::caja::Caja;
use crate::device::Grupo;
use crate::estado::CajasEstadoEnum;
use vstd::prelude::*;

verus! {

/// A register as the listing shows it: without its token.
#[derive(Clone, Debug)]
pub struct CajaConKiosko {
    pub id: i32,
    pub nombre_caja: String,
    pub tipo: String,
    pub estado: CajasEstadoEnum,
}

/// A [`CajaConKiosko`] with its texts as sequences of characters.
#[verifier::ext_equal]
pub struct CajaConKioskoView {
    pub id: i32,
    pub nombre_caja: Seq<char>,
    pub tipo: Seq<char>,
    pub estado: CajasEstadoEnum,
}

impl DeepView for CajaConKiosko {
    type V = CajaConKioskoView;

    open spec fn deep_view(&self) -> CajaConKioskoView {
        CajaConKioskoView {
            id: self.id,
            nombre_caja: self.nombre_caja@,
            tipo: self.tipo@,
            estado: self.estado,
        }
    }
}

/// A merchant as the listing shows it: without its keys, with its
/// registers.
#[derive(Clone, Debug)]
pub struct GrupoConCajas {
    pub id: i32,
    pub id_yappy: String,
    pub nombre: String,
    pub cajas: Vec<CajaConKiosko>,
}

/// A [`GrupoConCajas`] with its texts as sequences of characters.
#[verifier::ext_equal]
pub struct GrupoConCajasView {
    pub id: i32,
    pub id_yappy: Seq<char>,
    pub nombre: Seq<char>,
    pub cajas: Seq<CajaConKioskoView>,
}

impl DeepView for GrupoConCajas {
    type V = GrupoConCajasView;

    open spec fn deep_view(&self) -> GrupoConCajasView {
        GrupoConCajasView {
            id: self.id,
            id_yappy: self.id_yappy@,
            nombre: self.nombre@,
            cajas: self.cajas.deep_view(),
        }
    }
}

/// What the listing shows of a register.
pub open spec fn listed(caja: Caja) -> CajaConKioskoView {
    CajaConKioskoView {
        id: caja.id,
        nombre_caja: caja.nombre_caja@,
        tipo: caja.tipo@,
        estado: caja.estado,
    }
}

/// The registers of a merchant, in the order in which `cajas` holds them.
pub open spec fn cajas_of(id_grupo: i32, cajas: Seq<Caja>) -> Seq<CajaConKioskoView> {
    cajas.filter(|caja: Caja| caja.id_grupo == id_grupo).map_values(|caja: Caja| listed(caja))
}

/// What the listing shows of a merchant.
pub open spec fn grupo_listed(grupo: Grupo, cajas: Seq<Caja>) -> GrupoConCajasView {
    GrupoConCajasView {
        id: grupo.id,
        id_yappy: grupo.id_yappy@,
        nombre: grupo.nombre@,
        cajas: cajas_of(grupo.id, cajas),
    }
}

proof fn lemma_cajas_of_next(id_grupo: i32, cajas: Seq<Caja>, i: int)
    requires
        0 <= i < cajas.len(),
    ensures
        cajas_of(id_grupo, cajas.take(i + 1)) == if cajas[i].id_grupo == id_grupo {
            cajas_of(id_grupo, cajas.take(i)).push(listed(cajas[i]))
        } else {
            cajas_of(id_grupo, cajas.take(i))
        },
{
    reveal(Seq::filter);
    let belongs = |caja: Caja| caja.id_grupo == id_grupo;
    assert(cajas.take(i + 1).drop_last() =~= cajas.take(i));
    assert(cajas.take(i + 1).last() == cajas[i]);
    if cajas[i].id_grupo == id_grupo {
        assert(cajas.take(i + 1).filter(belongs) == cajas.take(i).filter(belongs).push(cajas[i]));
        assert(cajas_of(id_grupo, cajas.take(i + 1)) =~= cajas_of(id_grupo, cajas.take(i)).push(
            listed(cajas[i]),
        ));
    } else {
        assert(cajas.take(i + 1).filter(belongs) == cajas.take(i).filter(belongs));
    }
}

fn registers_of(id_grupo: i32, cajas: &Vec<Caja>) -> (r: Vec<CajaConKiosko>)
    ensures
        r.deep_view() == cajas_of(id_grupo, cajas@),
{
    let mut found: Vec<CajaConKiosko> = Vec::new();
    let mut i: usize = 0;
    proof {
        reveal(Seq::filter);
        assert(cajas@.take(0) =~= Seq::<Caja>::empty());
        assert(found.deep_view() =~= cajas_of(id_grupo, cajas@.take(0)));
    }
    while i < cajas.len()
        invariant
            i <= cajas.len(),
            found.deep_view() == cajas_of(id_grupo, cajas@.take(i as int)),
        decreases cajas.len() - i,
    {
        proof {
            lemma_cajas_of_next(id_grupo, cajas@, i as int);
        }
        let caja = &cajas[i];
        if caja.id_grupo == id_grupo {
            let ghost before = found.deep_view();
            found.push(
                CajaConKiosko {
                    id: caja.id,
                    nombre_caja: caja.nombre_caja.clone(),
                    tipo: caja.tipo.clone(),
                    estado: caja.estado,
                },
            );
            assert(found.deep_view() =~= before.push(listed(cajas@[i as int])));
        }
        i = i + 1;
    }
    assert(cajas@.take(cajas.len() as int) =~= cajas@);
    found
}

/// Lists every merchant with its registers: one entry per merchant, in the
/// order of `grupos`; under each, the registers whose group it is, in the
/// order of `cajas`.
pub fn get_grupos(grupos: &Vec<Grupo>, cajas: &Vec<Caja>) -> (r: Vec<GrupoConCajas>)
    ensures
        r.len() == grupos.len(),
        forall|i: int|
            0 <= i < grupos.len() ==> (#[trigger] r[i]).deep_view() == grupo_listed(
                grupos[i],
                cajas@,
            ),
{
    let mut listing: Vec<GrupoConCajas> = Vec::new();
    let mut i: usize = 0;
    while i < grupos.len()
        invariant
            i <= grupos.len(),
            listing.len() == i,
            forall|k: int|
                0 <= k < i ==> (#[trigger] listing[k]).deep_view() == grupo_listed(
                    grupos[k],
                    cajas@,
                ),
        decreases grupos.len() - i,
    {
        let grupo = &grupos[i];
        listing.push(
            GrupoConCajas {
                id: grupo.id,
                id_yappy: grupo.id_yappy.clone(),
                nombre: grupo.nombre.clone(),
                cajas: registers_of(grupo.id, cajas),
            },
        );
        i = i + 1;
    }
    listing
}

} // verus!
