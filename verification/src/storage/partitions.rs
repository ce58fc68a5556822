use vstd::prelude::*;

verus! {

/// Partition d'amorçage : 1 Mio réservé au chargeur et au noyau.
pub const LBA_BOOT_DEBUT: u64 = 0;
pub const LBA_BOOT_TAILLE: u64 = 2048;

/// Coffre /sec : 9 Mio.
pub const LBA_SEC_DEBUT: u64 = 2048;
pub const LBA_SEC_TAILLE: u64 = 18432;

/// Journaux et captures /var, jusqu'à la fin du disque.
pub const LBA_VAR_DEBUT: u64 = 20480;

/// Secteur absolu d'un secteur de /sec, ou le refus quand il dépasse la partition.
pub open spec fn secteur_sec_v(offset: u64) -> Result<u64, &'static str> {
    if offset >= LBA_SEC_TAILLE {
        Err("/sec: dépassement de la limite de partition")
    } else {
        Ok((LBA_SEC_DEBUT + offset) as u64)
    }
}

/// Secteur absolu à lire pour le secteur `offset` de /sec.
pub fn lire_secteur_sec(offset: u64) -> (r: Result<u64, &'static str>)
    ensures
        r == secteur_sec_v(offset),
{
    if offset >= LBA_SEC_TAILLE {
        return Err("/sec: dépassement de la limite de partition");
    }
    Ok(LBA_SEC_DEBUT + offset)
}

/// Secteur absolu à écrire pour le secteur `offset` de /sec.
pub fn ecrire_secteur_sec(offset: u64) -> (r: Result<u64, &'static str>)
    ensures
        r == secteur_sec_v(offset),
{
    if offset >= LBA_SEC_TAILLE {
        return Err("/sec: dépassement de la limite de partition");
    }
    Ok(LBA_SEC_DEBUT + offset)
}

/// Secteur absolu à lire pour le secteur `offset` de /var.
pub fn lire_secteur_var(offset: u64) -> (r: u64)
    requires
        offset <= u64::MAX - LBA_VAR_DEBUT,
    ensures
        r == LBA_VAR_DEBUT + offset,
{
    LBA_VAR_DEBUT + offset
}

/// Secteur absolu à écrire pour le secteur `offset` de /var.
pub fn ecrire_secteur_var(offset: u64) -> (r: u64)
    requires
        offset <= u64::MAX - LBA_VAR_DEBUT,
    ensures
        r == LBA_VAR_DEBUT + offset,
{
    LBA_VAR_DEBUT + offset
}

/// Les partitions sont isolées : un secteur accepté de /sec tombe dans /sec, jamais dans la zone
/// d'amorçage ni dans /var, et un secteur de /var ne tombe jamais avant /var.
pub proof fn loi_partitions_isolees(offset_sec: u64, offset_var: u64)
    requires
        offset_var <= u64::MAX - LBA_VAR_DEBUT,
    ensures
        secteur_sec_v(offset_sec) matches Ok(l) ==> LBA_BOOT_DEBUT + LBA_BOOT_TAILLE <= l < LBA_VAR_DEBUT,
        LBA_VAR_DEBUT + offset_var >= LBA_SEC_DEBUT + LBA_SEC_TAILLE,
{
}

} // verus!
